//! Validated account identifiers and the read-only watch-list.
//!
//! An `AccountId` is accepted only if it satisfies the chain's account-naming
//! grammar: 2 to 64 characters, all lowercase ASCII letters, digits or the
//! separators `-`, `_`, `.`; a separator never starts or ends the name and
//! never follows another separator. Every accepted name is lowercase ASCII,
//! so it is its own normal form and exact equality of the character
//! sequences is the right notion of account equality.

use vstd::prelude::*;
use vstd::string::StrSliceExecFns;

verus! {

/// A lowercase ASCII letter or digit: the characters that may appear
/// anywhere in an account name.
pub open spec fn is_name_char(c: char) -> bool {
    (97 <= c as u32 && c as u32 <= 122) || (48 <= c as u32 && c as u32 <= 57)
}

/// One of the three separator characters `-`, `_`, `.`.
pub open spec fn is_separator_char(c: char) -> bool {
    c as u32 == 45 || c as u32 == 95 || c as u32 == 46
}

/// The first `n` characters of `s` break no rule that a prefix can break:
/// every character is allowed, the name does not start with a separator,
/// and no separator follows another separator.
pub open spec fn valid_prefix(s: Seq<char>, n: int) -> bool {
    &&& forall|j: int| 0 <= j < n ==> is_name_char(#[trigger] s[j]) || is_separator_char(s[j])
    &&& n > 0 ==> is_name_char(s[0])
    &&& forall|j: int| 1 <= j < n ==> !(is_separator_char(#[trigger] s[j]) && is_separator_char(s[j - 1]))
}

/// The account-naming grammar: length 2 to 64, a valid prefix throughout,
/// and the name does not end with a separator.
pub open spec fn valid_account_seq(s: Seq<char>) -> bool {
    &&& 2 <= s.len() && s.len() <= 64
    &&& valid_prefix(s, s.len() as int)
    &&& is_name_char(s[s.len() - 1])
}

/// Why a configuration input was rejected.
#[derive(Debug)]
pub enum WatchError {
    /// The contained raw string is not a valid account identifier.
    InvalidAccountId(String),
}

/// Decides the account-naming grammar for an arbitrary string.
pub fn is_valid_account_str(s: &str) -> (r: bool)
    ensures
        r == valid_account_seq(s@),
{
    let n: usize = s.unicode_len();
    if n < 2 || n > 64 {
        return false;
    }
    let mut i: usize = 0;
    let mut prev_sep: bool = false;
    while i < n
        invariant
            2 <= n <= 64,
            n == s@.len(),
            0 <= i <= n,
            valid_prefix(s@, i as int),
            i > 0 ==> prev_sep == is_separator_char(s@[i as int - 1]),
        decreases n - i,
    {
        let c = s.get_char(i);
        let u = c as u32;
        let name = (97 <= u && u <= 122) || (48 <= u && u <= 57);
        let sep = u == 45 || u == 95 || u == 46;
        if !name && !sep {
            return false;
        }
        if sep && (i == 0 || prev_sep) {
            return false;
        }
        prev_sep = sep;
        i = i + 1;
    }
    !prev_sep
}

/// A validated, immutable account identifier in normal form.
#[derive(Debug)]
pub struct AccountId {
    name: String,
}

impl View for AccountId {
    type V = Seq<char>;

    closed spec fn view(&self) -> Seq<char> {
        self.name@
    }
}

impl AccountId {
    /// The identifier satisfies the account-naming grammar.
    pub open spec fn wf(&self) -> bool {
        valid_account_seq(self@)
    }

    /// Validates `raw` once, at the input boundary: the only way to obtain
    /// an `AccountId`. Succeeds exactly on grammatical names and keeps the
    /// accepted string unchanged; a rejected input is handed back inside
    /// the error.
    pub fn new(raw: String) -> (res: Result<AccountId, WatchError>)
        ensures
            res is Ok <==> valid_account_seq(raw@),
            res matches Ok(id) ==> id@ == raw@ && id.wf(),
            res matches Err(WatchError::InvalidAccountId(s)) ==> s@ == raw@,
    {
        if is_valid_account_str(raw.as_str()) {
            Ok(AccountId { name: raw })
        } else {
            Err(WatchError::InvalidAccountId(raw))
        }
    }

    /// The identifier as a string slice.
    pub fn as_str(&self) -> (s: &str)
        ensures
            s@ == self@,
    {
        self.name.as_str()
    }

    /// Exact equality of the two identifiers' character sequences.
    pub fn same_account(&self, other: &AccountId) -> (r: bool)
        ensures
            r == (self@ == other@),
    {
        self.name == other.name
    }

    /// A copy holding the same character sequence.
    pub fn duplicate(&self) -> (r: AccountId)
        ensures
            r@ == self@,
    {
        AccountId { name: self.name.clone() }
    }
}

/// Law: validation is deterministic, hence idempotent — two validations of
/// the same raw characters either both fail or both yield identifiers with
/// equal character sequences.
pub proof fn lemma_validation_deterministic(
    raw1: String,
    raw2: String,
    r1: Result<AccountId, WatchError>,
    r2: Result<AccountId, WatchError>,
)
    requires
        raw1@ == raw2@,
        call_ensures(AccountId::new, (raw1,), r1),
        call_ensures(AccountId::new, (raw2,), r2),
    ensures
        r1 is Ok <==> r2 is Ok,
        r1 is Ok ==> (r1->Ok_0)@ == (r2->Ok_0)@,
{
}

/// Law: an already-validated identifier passed through validation again
/// comes back accepted and unchanged.
pub proof fn lemma_revalidation_unchanged(
    id: AccountId,
    raw: String,
    r: Result<AccountId, WatchError>,
)
    requires
        id.wf(),
        raw@ == id@,
        call_ensures(AccountId::new, (raw,), r),
    ensures
        r matches Ok(b) && b@ == id@,
{
}

/// The read-only set of accounts being watched, fixed at startup.
pub struct WatchList {
    accounts: Vec<AccountId>,
}

impl View for WatchList {
    type V = Seq<Seq<char>>;

    closed spec fn view(&self) -> Seq<Seq<char>> {
        self.accounts@.map_values(|a: AccountId| a@)
    }
}

impl WatchList {
    /// Every entry satisfies the account-naming grammar.
    pub open spec fn wf(&self) -> bool {
        forall|i: int| 0 <= i < self@.len() ==> valid_account_seq(#[trigger] self@[i])
    }

    /// Validates every raw entry and keeps them all, in order. One bad
    /// entry fails the whole construction: there are no partial
    /// watch-lists. An empty input is legal and yields the empty list.
    pub fn new(raw: Vec<String>) -> (res: Result<WatchList, WatchError>)
        ensures
            res is Ok <==> (forall|i: int| 0 <= i < raw@.len() ==> valid_account_seq(#[trigger] raw@[i]@)),
            res matches Ok(w) ==> w@ == raw@.map_values(|s: String| s@) && w.wf(),
            res matches Err(WatchError::InvalidAccountId(s)) ==> exists|i: int|
                0 <= i < raw@.len() && #[trigger] raw@[i]@ == s@ && !valid_account_seq(s@),
    {
        let mut accounts: Vec<AccountId> = Vec::new();
        let mut i: usize = 0;
        while i < raw.len()
            invariant
                0 <= i <= raw@.len(),
                accounts@.len() == i,
                forall|j: int| 0 <= j < i ==> valid_account_seq(#[trigger] raw@[j]@),
                forall|j: int| 0 <= j < i ==> #[trigger] accounts@[j]@ == raw@[j]@,
            decreases raw@.len() - i,
        {
            let entry = raw[i].clone();
            match AccountId::new(entry) {
                Ok(id) => {
                    accounts.push(id);
                },
                Err(e) => {
                    return Err(e);
                },
            }
            i = i + 1;
        }
        let w = WatchList { accounts };
        proof {
            assert(w@ =~= raw@.map_values(|s: String| s@));
        }
        Ok(w)
    }

    /// How many accounts are being watched.
    pub fn len(&self) -> (n: usize)
        ensures
            n == self@.len(),
    {
        self.accounts.len()
    }

    /// Membership: is `id` one of the watched accounts?
    pub fn contains(&self, id: &AccountId) -> (r: bool)
        ensures
            r == self@.contains(id@),
    {
        let mut i: usize = 0;
        while i < self.accounts.len()
            invariant
                0 <= i <= self.accounts@.len(),
                self@.len() == self.accounts@.len(),
                forall|j: int| 0 <= j < i ==> #[trigger] self@[j] != id@,
                forall|j: int| 0 <= j < self.accounts@.len() ==> #[trigger] self@[j] == self.accounts@[j]@,
            decreases self.accounts@.len() - i,
        {
            if self.accounts[i].same_account(id) {
                assert(self@[i as int] == id@);
                return true;
            }
            i = i + 1;
        }
        assert(forall|j: int| 0 <= j < self@.len() ==> #[trigger] self@[j] != id@);
        false
    }
}

} // verus!
