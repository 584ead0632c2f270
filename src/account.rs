use vstd::prelude::*;

verus! {

/// A character that may stand in an account name: a lowercase letter, a
/// digit, or one of the separators.
pub open spec fn is_name_char(c: char) -> bool {
    ('a' <= c && c <= 'z') || ('0' <= c && c <= '9') || is_separator(c)
}

/// The separators of an account name.
pub open spec fn is_separator(c: char) -> bool {
    c == '-' || c == '_' || c == '.'
}

/// A valid account name: 2 to 64 characters, each a lowercase letter, a digit
/// or a separator, with no separator first, last, or right after another.
pub open spec fn valid_account_name(s: Seq<char>) -> bool {
    &&& 2 <= s.len() <= 64
    &&& forall|i: int| 0 <= i < s.len() ==> is_name_char(#[trigger] s[i])
    &&& !is_separator(s[0])
    &&& !is_separator(s[s.len() - 1])
    &&& forall|i: int|
        0 <= i < s.len() - 1 ==> !(is_separator(#[trigger] s[i]) && is_separator(s[i + 1]))
}

/// Relies on near_sdk::env::is_valid_account_id: it accepts exactly the byte
/// strings of 2 to 64 bytes made of `a-z`, `0-9`, `-`, `_`, `.`, where no
/// separator starts, ends or follows another. Any byte of a non-ASCII
/// character is refused, so the statement over characters is the same.
#[verifier::external_body]
fn is_valid_account_name(id: &str) -> (r: bool)
    ensures
        r == valid_account_name(id@),
{
    near_sdk::env::is_valid_account_id(id.as_bytes())
}

/// The error of a name that is no valid account name.
#[derive(Clone, Copy, Debug, PartialEq, Eq, Structural)]
pub struct ParseAccountIdError {}

/// The name of an account: the identity of a caller, of an owner or of the
/// registry.
#[derive(Clone, Debug, Hash, PartialEq, Eq)]
pub struct AccountId {
    pub id: String,
}

impl View for AccountId {
    type V = Seq<char>;

    open spec fn view(&self) -> Seq<char> {
        self.id@
    }
}

impl AccountId {
    /// Wraps a name without checking it.
    pub fn new_unchecked(id: String) -> (r: AccountId)
        ensures
            r.id == id,
    {
        AccountId { id }
    }

    /// Checks `id` against the account-name rules.
    pub fn parse(id: &str) -> (r: Result<AccountId, ParseAccountIdError>)
        ensures
            r is Ok <==> valid_account_name(id@),
            r is Ok ==> r->Ok_0@ == id@,
    {
        if is_valid_account_name(id) {
            Ok(AccountId { id: id.to_string() })
        } else {
            Err(ParseAccountIdError {})
        }
    }

    /// The name as text.
    pub fn as_str(&self) -> (r: &str)
        ensures
            r@ == self@,
    {
        self.id.as_str()
    }

    /// A second value holding the same name.
    pub fn duplicate(&self) -> (r: AccountId)
        ensures
            r == *self,
    {
        AccountId { id: self.id.clone() }
    }

    /// Whether two values name the same account.
    pub fn same_as(&self, other: &AccountId) -> (r: bool)
        ensures
            r == (self@ == other@),
    {
        self.id == other.id
    }
}

impl std::str::FromStr for AccountId {
    type Err = ParseAccountIdError;

    fn from_str(id: &str) -> Result<AccountId, ParseAccountIdError> {
        AccountId::parse(id)
    }
}

} // verus!
