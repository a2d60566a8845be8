use vstd::prelude::*;
use vstd::string::StringExecFns;

use crate::auth::models::Scope;
use crate::utils::error::ResponseError;

verus! {

/// The scopes of the host's owner.
pub open spec fn owner_scopes() -> Seq<Scope> {
    seq![Scope::Config, Scope::OS, Scope::File, Scope::Process, Scope::Usage]
}

/// Whether the logged-in user, if any, is the host's owner.
pub open spec fn is_owner(user: Option<String>, owner: Seq<char>) -> bool {
    user matches Some(u) && u@ == owner
}

/// The scopes a user may use: the owner's, for the owner; none for anyone
/// else.
pub fn get_scopes(user: &Option<String>, owner: &str) -> (r: Vec<Scope>)
    ensures
        r@ == (if is_owner(*user, owner@) {
            owner_scopes()
        } else {
            Seq::empty()
        }),
{
    let mut r: Vec<Scope> = Vec::new();
    let owns = match user {
        Some(u) => u.as_str().to_owned() == owner.to_owned(),
        None => false,
    };
    if owns {
        r.push(Scope::Config);
        r.push(Scope::OS);
        r.push(Scope::File);
        r.push(Scope::Process);
        r.push(Scope::Usage);
    }
    assert(r@ =~= (if is_owner(*user, owner@) {
        owner_scopes()
    } else {
        Seq::<Scope>::empty()
    }));
    r
}

/// Whether a user may use a scope.
pub fn has_permission(user: &Option<String>, owner: &str, scope: Scope) -> (r: bool)
    ensures
        r == (is_owner(*user, owner@) && owner_scopes().contains(scope)),
{
    let scopes = get_scopes(user, owner);
    let mut i: usize = 0;
    while i < scopes.len()
        invariant
            i <= scopes@.len(),
            scopes@ == (if is_owner(*user, owner@) {
                owner_scopes()
            } else {
                Seq::empty()
            }),
            forall|k: int| 0 <= k < i ==> scopes@[k] != scope,
        decreases scopes.len() - i,
    {
        if scopes[i] == scope {
            assert(scopes@[i as int] == scope);
            assert(is_owner(*user, owner@));
            assert(owner_scopes()[i as int] == scope);
            return true;
        }
        i = i + 1;
    }
    proof {
        if is_owner(*user, owner@) && owner_scopes().contains(scope) {
            let k = choose|k: int| 0 <= k < owner_scopes().len() && owner_scopes()[k] == scope;
            assert(scopes@[k] == scope);
        }
    }
    false
}

/// The hexadecimal digit for `n`, in lower case.
pub open spec fn hex_digit(n: nat) -> char {
    if n < 10 {
        crate::utils::string::digit_char(n)
    } else if n == 10 {
        'a'
    } else if n == 11 {
        'b'
    } else if n == 12 {
        'c'
    } else if n == 13 {
        'd'
    } else if n == 14 {
        'e'
    } else {
        'f'
    }
}

/// The bytes in hexadecimal: two lower-case digits for each, the high half
/// first.
pub open spec fn hex_of(bytes: Seq<u8>) -> Seq<char>
    decreases bytes.len(),
{
    if bytes.len() == 0 {
        Seq::empty()
    } else {
        hex_of(bytes.drop_last()) + seq![
            hex_digit(bytes.last() as nat / 16),
            hex_digit(bytes.last() as nat % 16),
        ]
    }
}

/// Relies on `hex::encode`: two lower-case hexadecimal digits for each
/// byte, the high half first.
#[verifier::external_body]
fn hex_encode(bytes: &[u8; 20]) -> (r: String)
    ensures
        r@ == hex_of(bytes@),
{
    hex::encode(bytes)
}

/// The address of the key that signed `message` with the signature
/// `(v, r, s)`, where one can be recovered.
pub uninterp spec fn signer_address(v: u8, r: Seq<u8>, s: Seq<u8>, message: Seq<u8>) -> Option<
    Seq<u8>,
>;

/// Relies on ethsign's `Signature::recover` and `PublicKey::address`: the
/// address of the key that made the signature, which depends on the
/// signature and the message alone; or the recovery error as text.
#[verifier::external_body]
fn recover_signer(v: u8, r: [u8; 32], s: [u8; 32], message: &[u8; 32]) -> (a: Result<[u8; 20], String>)
    ensures
        a is Ok <==> signer_address(v, r@, s@, message@) is Some,
        a matches Ok(x) ==> x@ == signer_address(v, r@, s@, message@)->Some_0,
{
    match (ethsign::Signature { v, r, s }).recover(message) {
        Ok(key) => Ok(*key.address()),
        Err(e) => Err(e.to_string()),
    }
}

/// The user name of the holder of a wallet address.
pub fn user_of_address(address: &[u8; 20]) -> (r: String)
    ensures
        r@ == "eth:"@ + hex_of(address@),
{
    let mut r = String::from_str("eth:");
    r.append(hex_encode(address).as_str());
    r
}

/// The user that a wallet signature of the session message's hash logs in:
/// the holder of the address that made it. Fails where no address can be
/// recovered.
pub fn login_user(v: u8, r: [u8; 32], s: [u8; 32], message: &[u8; 32]) -> (u: Result<
    String,
    ResponseError,
>)
    ensures
        u is Ok <==> signer_address(v, r@, s@, message@) is Some,
        u matches Ok(name) ==> name@ == "eth:"@ + hex_of(signer_address(v, r@, s@, message@)->Some_0),
{
    match recover_signer(v, r, s, message) {
        Ok(address) => Ok(user_of_address(&address)),
        Err(e) => {
            let mut m = String::from_str("Signature address recovery failed: ");
            m.append(e.as_str());
            Err(ResponseError::new(m))
        },
    }
}

} // verus!
