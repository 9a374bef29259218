use vstd::prelude::*;
use crate::error::CustomError;
use crate::state::Key;

verus! {

/// Address of the token program, the only program whose accounts hold tokens.
pub const TOKEN_PROGRAM_ID: [u8; 32] = [
    6, 221, 246, 225, 215, 101, 161, 147, 217, 203, 225, 70, 206, 235, 121, 172,
    28, 180, 133, 237, 95, 91, 55, 145, 58, 140, 245, 133, 126, 255, 0, 169,
];

/// Length in bytes of a token account's data.
pub const TOKEN_ACCOUNT_LEN: usize = 165;

/// The token program's address.
pub fn token_program_id() -> (r: Key)
    ensures
        r@ == TOKEN_PROGRAM_ID@,
{
    Key { bytes: TOKEN_PROGRAM_ID }
}

/// A token account as read: its address, the token it holds, the identity
/// that controls it, and its balance.
#[derive(Debug, Clone, Copy)]
pub struct TokenAccount {
    pub key: Key,
    pub mint: Key,
    pub owner: Key,
    pub amount: u64,
}

/// An account handed in unchecked: its address, the program that owns it,
/// and its raw data.
#[derive(Debug)]
pub struct AccountInfo {
    pub key: Key,
    pub owner: Key,
    pub data: Vec<u8>,
}

/// The unsigned integer that eight bytes encode, least significant first.
pub open spec fn le_u64(s: Seq<u8>) -> int {
    s[0] as int + 256 * (s[1] as int + 256 * (s[2] as int + 256 * (s[3] as int + 256 * (
    s[4] as int + 256 * (s[5] as int + 256 * (s[6] as int + 256 * s[7] as int))))))
}

/// Whether the four bytes at `at` are the tag of an optional field: 0 or 1,
/// as a little-endian `u32`.
pub open spec fn option_tag_ok(d: Seq<u8>, at: int) -> bool {
    &&& d[at] == 0 || d[at] == 1
    &&& d[at + 1] == 0
    &&& d[at + 2] == 0
    &&& d[at + 3] == 0
}

/// Whether `d` is the data of an initialized token account: 165 bytes, with
/// valid tags on the delegate (offset 72), native amount (109) and close
/// authority (129), and a state byte (108) that is initialized (1) or frozen (2).
pub open spec fn token_account_data_ok(d: Seq<u8>) -> bool {
    &&& d.len() == TOKEN_ACCOUNT_LEN
    &&& option_tag_ok(d, 72)
    &&& d[108] == 1 || d[108] == 2
    &&& option_tag_ok(d, 109)
    &&& option_tag_ok(d, 129)
}

/// Relies on anchor-spl's `TokenAccount::try_deserialize`, which is
/// spl-token's `Account::unpack`: it accepts exactly the data that
/// `token_account_data_ok` describes, and reads the mint from bytes 0..32,
/// the owner from bytes 32..64 and the balance from bytes 64..72.
#[verifier::external_body]
fn unpack_token_account(info: &AccountInfo) -> (r: Option<TokenAccount>)
    ensures
        r.is_some() <==> token_account_data_ok(info.data@),
        r matches Some(a) ==> {
            &&& a.key@ == info.key@
            &&& a.mint@ == info.data@.subrange(0, 32)
            &&& a.owner@ == info.data@.subrange(32, 64)
            &&& a.amount == le_u64(info.data@.subrange(64, 72))
        },
{
    let mut buf: &[u8] = info.data.as_slice();
    match <anchor_spl::token::TokenAccount as anchor_lang::AccountDeserialize>::try_deserialize(
        &mut buf,
    ) {
        Ok(a) => Some(TokenAccount {
            key: info.key,
            mint: Key { bytes: a.mint.to_bytes() },
            owner: Key { bytes: a.owner.to_bytes() },
            amount: a.amount,
        }),
        Err(_) => None,
    }
}

/// Why an account handed in unchecked cannot be read as a token account, if
/// it cannot: it is not owned by the token program, or holds no data, or its
/// data does not decode.
pub open spec fn token_account_error(info: AccountInfo) -> Option<CustomError> {
    if info.owner@ != TOKEN_PROGRAM_ID@ {
        Some(CustomError::InvalidTokenAccount)
    } else if info.data@.len() == 0 {
        Some(CustomError::AccountNotInitialized)
    } else if !token_account_data_ok(info.data@) {
        Some(CustomError::InvalidTokenAccount)
    } else {
        None
    }
}

/// Reads an account handed in unchecked as a token account.
pub fn read_token_account(info: &AccountInfo) -> (r: Result<TokenAccount, CustomError>)
    ensures
        r is Ok <==> token_account_error(*info) is None,
        r matches Err(e) ==> token_account_error(*info) == Some(e),
        r matches Ok(a) ==> {
            &&& a.key@ == info.key@
            &&& a.mint@ == info.data@.subrange(0, 32)
            &&& a.owner@ == info.data@.subrange(32, 64)
            &&& a.amount == le_u64(info.data@.subrange(64, 72))
        },
{
    if !info.owner.same(&token_program_id()) {
        return Err(CustomError::InvalidTokenAccount);
    }
    if info.data.len() == 0 {
        return Err(CustomError::AccountNotInitialized);
    }
    match unpack_token_account(info) {
        Some(a) => Ok(a),
        None => Err(CustomError::InvalidTokenAccount),
    }
}

} // verus!
