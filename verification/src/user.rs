//! One authenticated account and the purchase attempts it makes.
//!
//! An attempt passes four stages, with the network between them:
//!
//! 1. [`User::prepare`] checks the cached balance and addresses the intent
//!    to this account. Nothing has been sent when it fails.
//! 2. The caller provokes a response that carries a fresh anti-forgery
//!    token; [`get_csrf`] reads the token out of it.
//! 3. The caller posts the intent through an endpoint, between that
//!    endpoint's `begin_post` and `finish_post`.
//! 4. The caller decodes the verdict; [`User::settle`] books it.

use crate::header::HeaderField;
use crate::item::{CreatorTypes, Item};
use crate::Error;
use vstd::prelude::*;
use vstd::string::*;

verus! {

/// Where a request is sent to provoke a response with a fresh token. The
/// request is expected to be rejected; only the header matters.
pub const LOGOUT_URL: &'static str = "https://auth.roblox.com/v2/logout";

/// The response header that carries the anti-forgery token, and the request
/// header in which it is sent back.
pub const CSRF_HEADER: &'static str = "x-csrf-token";

/// Everything the marketplace wants to know before it sells.
#[derive(Debug)]
pub struct BuyData {
    pub collectible_item_id: String,
    pub collectible_product_id: String,
    pub expected_currency: u8,
    pub expected_price: u64,
    pub expected_purchaser_id: u64,
    pub expected_purchaser_type: CreatorTypes,
    pub expected_seller_id: u64,
    pub expected_seller_type: CreatorTypes,
    pub idemptoency_key: String,
}

/// A purchase intent with its texts as sequences of characters.
pub struct BuyDataView {
    pub collectible_item_id: Seq<char>,
    pub collectible_product_id: Seq<char>,
    pub expected_currency: u8,
    pub expected_price: u64,
    pub expected_purchaser_id: u64,
    pub expected_purchaser_type: CreatorTypes,
    pub expected_seller_id: u64,
    pub expected_seller_type: CreatorTypes,
    pub idemptoency_key: Seq<char>,
}

impl View for BuyData {
    type V = BuyDataView;

    open spec fn view(&self) -> BuyDataView {
        BuyDataView {
            collectible_item_id: self.collectible_item_id@,
            collectible_product_id: self.collectible_product_id@,
            expected_currency: self.expected_currency,
            expected_price: self.expected_price,
            expected_purchaser_id: self.expected_purchaser_id,
            expected_purchaser_type: self.expected_purchaser_type,
            expected_seller_id: self.expected_seller_id,
            expected_seller_type: self.expected_seller_type,
            idemptoency_key: self.idemptoency_key@,
        }
    }
}

impl Clone for BuyData {
    fn clone(&self) -> (copy: BuyData)
        ensures
            copy == *self,
    {
        BuyData {
            collectible_item_id: self.collectible_item_id.clone(),
            collectible_product_id: self.collectible_product_id.clone(),
            expected_currency: self.expected_currency,
            expected_price: self.expected_price,
            expected_purchaser_id: self.expected_purchaser_id,
            expected_purchaser_type: self.expected_purchaser_type,
            expected_seller_id: self.expected_seller_id,
            expected_seller_type: self.expected_seller_type,
            idemptoency_key: self.idemptoency_key.clone(),
        }
    }
}

/// The currency code of the marketplace's own currency.
pub const CURRENCY: u8 = 1;

/// Whether `c` is a hexadecimal digit in lower case.
pub open spec fn is_lower_hex(c: char) -> bool {
    ('0' <= c <= '9') || ('a' <= c <= 'f')
}

/// Whether `key` has the shape of a random (version 4) UUID in its usual
/// notation: 32 lower-case hexadecimal digits in groups of 8, 4, 4, 4 and
/// 12 with a hyphen between groups, where the third group starts with `4`
/// and the fourth with `8`, `9`, `a` or `b`.
pub open spec fn is_idempotency_key(key: Seq<char>) -> bool {
    &&& key.len() == 36
    &&& forall|i: int|
        0 <= i < 36 ==> if i == 8 || i == 13 || i == 18 || i == 23 {
            #[trigger] key[i] == '-'
        } else {
            is_lower_hex(key[i])
        }
    &&& key[14] == '4'
    &&& (key[19] == '8' || key[19] == '9' || key[19] == 'a' || key[19] == 'b')
}

/// `uuid::Uuid::new_v4`, written out with the UUID's `to_string`: the usual
/// notation of a UUID whose bits are random but for the version and variant
/// marks. Which key comes back is up to the random source; the contract
/// claims the shape only, and in particular not that two keys differ. The
/// call panics if the operating system cannot supply random bytes.
#[verifier::external_body]
fn fresh_idempotency_key() -> (key: String)
    ensures
        is_idempotency_key(key@),
{
    uuid::Uuid::new_v4().to_string()
}

impl BuyData {
    /// The intent that the template `item` gives rise to under the
    /// idempotency key `key`.
    ///
    /// The template's creator is named as the purchaser, and the seller is
    /// left blank with the creator's type: both are placeholders until a
    /// session claims the intent with [`User::prepare`].
    pub open spec fn drafted(item: Item, key: Seq<char>) -> BuyDataView {
        BuyDataView {
            collectible_item_id: item.collectible_item_id@,
            collectible_product_id: item.collectible_product_id@,
            expected_currency: CURRENCY,
            expected_price: item.price,
            expected_purchaser_id: item.creator_id,
            expected_purchaser_type: CreatorTypes::User,
            expected_seller_id: 0,
            expected_seller_type: item.creator_type,
            idemptoency_key: key,
        }
    }

    /// Drafts an intent from a template under a key the caller chose. This
    /// is how an attempt that failed in transit is drafted again: with the
    /// key it had, so that the remote can tell the two apart from a second
    /// purchase.
    pub fn with_key(item: Item, key: String) -> (intent: BuyData)
        ensures
            intent@ == BuyData::drafted(item, key@),
    {
        BuyData {
            collectible_item_id: item.collectible_item_id,
            collectible_product_id: item.collectible_product_id,
            expected_currency: CURRENCY,
            expected_price: item.price,
            expected_purchaser_id: item.creator_id,
            expected_purchaser_type: CreatorTypes::User,
            expected_seller_id: 0,
            expected_seller_type: item.creator_type,
            idemptoency_key: key,
        }
    }

    /// Where this intent is posted to.
    pub fn purchase_url(&self) -> (url: String)
        ensures
            url@ == "https://apis.roblox.com/marketplace-sales/v1/item/"@
                + self@.collectible_item_id + "/purchase-item"@,
    {
        "https://apis.roblox.com/marketplace-sales/v1/item/".to_owned().concat(
            self.collectible_item_id.as_str(),
        ).concat("/purchase-item")
    }
}

impl From<Item> for BuyData {
    /// Drafts an intent from a template under a key made up on the spot.
    fn from(value: Item) -> (intent: BuyData)
        ensures
            intent@ == BuyData::drafted(value, intent@.idemptoency_key),
            is_idempotency_key(intent@.idemptoency_key),
    {
        let key = fresh_idempotency_key();
        BuyData::with_key(value, key)
    }
}

impl vstd::std_specs::convert::FromSpecImpl<Item> for BuyData {
    /// The key is random, so the conversion is no function of the template.
    open spec fn obeys_from_spec() -> bool {
        false
    }

    open spec fn from_spec(v: Item) -> BuyData {
        arbitrary()
    }
}

/// The remote's answer to a purchase: whether it sold, and if not, why.
#[derive(Debug)]
pub struct PurchaseData {
    /// A result code such as `Flooded`.
    pub purchase_result: Option<String>,
    /// An explanation such as `QuantityExhausted`.
    pub error_message: Option<String>,
    /// Whether the item was sold to this account.
    pub purchased: bool,
}

/// The text of a cookie header that presents `cookie` as the session.
pub fn cookie_header(cookie: &str) -> (header: String)
    ensures
        header@ == ".ROBLOSECURITY="@ + cookie@ + ";"@,
{
    ".ROBLOSECURITY=".to_owned().concat(cookie).concat(";")
}

/// Whether `reply` carries a token, and which.
pub open spec fn token_in(reply: Result<HeaderField, String>) -> Option<Seq<char>> {
    match reply {
        Ok(HeaderField::Text(token)) => Some(token@),
        _ => None,
    }
}

/// Whether `outcome` is what a token request that ended in `reply` gives.
pub open spec fn token_outcome(
    reply: Result<HeaderField, String>,
    outcome: Result<String, Error>,
) -> bool {
    match reply {
        Err(reason) => outcome matches Err(Error::Request(detail)) && detail@ == reason@,
        Ok(HeaderField::Missing) => outcome matches Err(Error::MissingCSRF),
        Ok(HeaderField::Unreadable) => outcome matches Err(Error::Other(detail)) && detail@
            == "unable to convert csrf to a string"@,
        Ok(HeaderField::Text(token)) => outcome matches Ok(found) && found@ == token@,
    }
}

/// Reads the anti-forgery token out of the response that was provoked for
/// it. `reply` is the transport's failure, or else the response's
/// `x-csrf-token` header.
///
/// A transport failure is handed on as `Request`. A response without the
/// header means the credential is no good: `MissingCSRF`. A header that is
/// not text is `Other`.
pub fn get_csrf(reply: Result<HeaderField, String>) -> (outcome: Result<String, Error>)
    ensures
        token_outcome(reply, outcome),
{
    match reply {
        Err(reason) => Err(Error::Request(reason)),
        Ok(HeaderField::Missing) => Err(Error::MissingCSRF),
        Ok(HeaderField::Unreadable) => Err(
            Error::Other("unable to convert csrf to a string".to_owned()),
        ),
        Ok(HeaderField::Text(token)) => Ok(token),
    }
}

/// Reads the tokens of many sessions, one reply each, and stops at the
/// first reply that has none: the result holds the tokens of the replies
/// before it, in their order. This never fails.
pub fn get_csrfs(replies: Vec<Result<HeaderField, String>>) -> (outcome: Result<
    Vec<String>,
    Error,
>)
    ensures
        outcome matches Ok(tokens) && {
            &&& tokens.len() <= replies.len()
            &&& forall|i: int|
                0 <= i < tokens.len() ==> token_in(#[trigger] replies[i]) == Some(tokens[i]@)
            &&& tokens.len() < replies.len() ==> token_in(replies[tokens.len() as int]) is None
        },
{
    let mut tokens: Vec<String> = Vec::new();
    let mut i: usize = 0;
    while i < replies.len()
        invariant
            i == tokens.len(),
            i <= replies.len(),
            forall|j: int| 0 <= j < i ==> token_in(#[trigger] replies[j]) == Some(tokens[j]@),
        decreases replies.len() - i,
    {
        match &replies[i] {
            Ok(HeaderField::Text(token)) => {
                tokens.push(token.clone());
            },
            _ => {
                return Ok(tokens);
            },
        }
        i += 1;
    }
    Ok(tokens)
}

/// One authenticated account.
#[derive(Debug)]
pub struct User {
    /// The session cookie.
    cookie: String,
    /// The account's numeric id.
    user_id: u64,
    /// The balance as this session last knew it.
    robux: u64,
    /// Items known to be bought in this session, oldest first. Kept for
    /// callers that want to avoid buying twice; no rule here reads it.
    history: Vec<u64>,
}

/// What a session is, for the purpose of every contract in this crate.
pub struct UserView {
    pub cookie: Seq<char>,
    pub user_id: u64,
    pub robux: u64,
    pub history: Seq<u64>,
}

impl View for User {
    type V = UserView;

    closed spec fn view(&self) -> UserView {
        UserView {
            cookie: self.cookie@,
            user_id: self.user_id,
            robux: self.robux,
            history: self.history@,
        }
    }
}

impl User {
    /// A session for the account `user_id` that believes it holds `robux`
    /// and has bought nothing yet.
    pub fn new(cookie: String, user_id: u64, robux: u64) -> (user: User)
        ensures
            user@ == (UserView { cookie: cookie@, user_id, robux, history: Seq::empty() }),
    {
        User { cookie, user_id, robux, history: Vec::new() }
    }

    /// The session cookie.
    pub fn cookie(&self) -> (cookie: &str)
        ensures
            cookie@ == self@.cookie,
    {
        self.cookie.as_str()
    }

    /// The account's numeric id.
    pub fn user_id(&self) -> (id: u64)
        ensures
            id == self@.user_id,
    {
        self.user_id
    }

    /// The cached balance.
    pub fn robux(&self) -> (balance: u64)
        ensures
            balance == self@.robux,
    {
        self.robux
    }

    /// Items known to be bought in this session, oldest first.
    pub fn history(&self) -> (history: &Vec<u64>)
        ensures
            history@ == self@.history,
    {
        &self.history
    }

    /// The cookie header that presents this session.
    pub fn cookie_header(&self) -> (header: String)
        ensures
            header@ == ".ROBLOSECURITY="@ + self@.cookie + ";"@,
    {
        cookie_header(self.cookie.as_str())
    }

    /// Reads this session's anti-forgery token out of the response that
    /// was provoked for it, as the free function of the same name does.
    pub fn get_csrf(&self, reply: Result<HeaderField, String>) -> (outcome: Result<
        String,
        Error,
    >)
        ensures
            token_outcome(reply, outcome),
    {
        get_csrf(reply)
    }

    /// The intent `item` once this session has claimed it: the seller
    /// fields name this account, everything else is as in `item`.
    pub open spec fn claimed(self, item: BuyDataView) -> BuyDataView {
        BuyDataView {
            expected_seller_id: self@.user_id,
            expected_seller_type: CreatorTypes::User,
            ..item
        }
    }

    /// The first stage of an attempt: the local guard.
    ///
    /// Fails with `Broke` exactly when the expected price is more than the
    /// cached balance; the caller must then send nothing. Otherwise gives
    /// the intent to send: a copy of `item` with this account in the seller
    /// fields. The session itself does not change either way. The balance
    /// is the cached one and may be out of date; that is accepted.
    pub fn prepare(&self, item: &BuyData) -> (outcome: Result<BuyData, Error>)
        ensures
            item.expected_price > self@.robux ==> outcome matches Err(Error::Broke),
            item.expected_price <= self@.robux ==> (outcome matches Ok(intent) && intent@
                == self.claimed(item@)),
    {
        if item.expected_price > self.robux {
            return Err(Error::Broke);
        }
        let mut intent = item.clone();
        intent.expected_seller_id = self.user_id;
        intent.expected_seller_type = CreatorTypes::User;
        Ok(intent)
    }

    /// The balance after the verdict `purchased` on an intent of `price`.
    pub open spec fn balance_after(balance: u64, price: u64, purchased: bool) -> int {
        if purchased {
            balance - price
        } else {
            balance as int
        }
    }

    /// The last stage of an attempt: books the decoded verdict.
    ///
    /// A verdict that says the item was bought takes the intent's expected
    /// price off the cached balance, once. Any other verdict leaves the
    /// session as it was. The verdict is handed back unchanged either way:
    /// a decline is an answer, not an error.
    ///
    /// The intent must be one that `prepare` let through on this balance,
    /// so a confirmed price is never more than the balance.
    pub fn settle(&mut self, intent: &BuyData, verdict: PurchaseData) -> (booked: PurchaseData)
        requires
            verdict.purchased ==> intent.expected_price <= old(self)@.robux,
        ensures
            booked == verdict,
            final(self)@.robux == User::balance_after(
                old(self)@.robux,
                intent.expected_price,
                verdict.purchased,
            ),
            final(self)@ == (UserView { robux: final(self)@.robux, ..old(self)@ }),
    {
        if verdict.purchased {
            self.robux -= intent.expected_price;
        }
        verdict
    }
}

/// A confirmed purchase takes exactly the expected price off the balance,
/// and a declined one takes nothing.
pub proof fn law_only_a_confirmed_purchase_costs(balance: u64, price: u64)
    requires
        price <= balance,
    ensures
        User::balance_after(balance, price, true) == balance - price,
        User::balance_after(balance, price, false) == balance,
{
}

/// An attempt that was declined, or that never reached a verdict, and is
/// then tried again and confirmed costs the price once, not twice.
pub proof fn law_confirmed_retry_costs_once(balance: u64, price: u64)
    requires
        price <= balance,
    ensures
        User::balance_after(
            User::balance_after(balance, price, false) as u64,
            price,
            true,
        ) == balance - price,
{
}

/// Claiming an intent for a session changes the seller fields and nothing
/// else. In particular the idempotency key and the expected price stay, so
/// an intent that is claimed again for a retry is recognised by the remote.
pub proof fn law_claim_keeps_key_and_price(user: User, item: BuyDataView)
    ensures
        user.claimed(item).idemptoency_key == item.idemptoency_key,
        user.claimed(item).expected_price == item.expected_price,
        user.claimed(item).expected_seller_id == user@.user_id,
        user.claimed(user.claimed(item)) == user.claimed(item),
{
}

} // verus!
