//! BRC-20 tickers and operation payload builders.

use vstd::prelude::*;
use vstd::string::StringExecFns;
use vstd::utf8::encode_utf8;
use crate::errors::{SigningError, SigningErrorType};
use crate::hash::H264;
use crate::ordinal::{
    is_payload_rejection,
    payload_accepted,
    OrdinalsInscription,
    MAX_INSCRIPTION_PAYLOAD,
};

verus! {

/// The protocol identifier every BRC-20 payload carries in its `p` field.
pub const BRC20_PROTOCOL_ID: &'static str = "brc-20";

/// The MIME content-type tag every BRC-20 inscription is tagged with.
pub const BRC20_MIME: &'static str = "text/plain;charset=utf-8";

/// The UTF-8 bytes of the BRC-20 MIME content-type tag.
pub open spec fn brc20_mime_bytes() -> Seq<u8> {
    encode_utf8(BRC20_MIME@)
}

/// The opening of every BRC-20 payload, up to and including the opening
/// quote of the `op` field value: `{"p":"brc-20","op":"`.
pub open spec fn payload_head() -> Seq<char> {
    "{\"p\":\""@ + BRC20_PROTOCOL_ID@ + "\",\"op\":\""@
}

/// The rest of a mint or transfer payload after the `op` field value:
/// `","tick":"<tick>","amt":"<amt>"}`.
pub open spec fn amount_payload_tail(tick: Seq<char>, amt: Seq<char>) -> Seq<char> {
    "\",\"tick\":\""@ + tick + "\",\"amt\":\""@ + amt + "\"}"@
}

/// The payload shape shared by mint and transfer:
/// `{"p":"brc-20","op":"<op>","tick":"<tick>","amt":"<amt>"}`.
pub open spec fn amount_payload_spec(op: Seq<char>, tick: Seq<char>, amt: Seq<char>) -> Seq<
    char,
> {
    payload_head() + op + amount_payload_tail(tick, amt)
}

/// The transfer payload:
/// `{"p":"brc-20","op":"transfer","tick":"<tick>","amt":"<amt>"}`.
pub open spec fn transfer_payload_spec(tick: Seq<char>, amt: Seq<char>) -> Seq<char> {
    amount_payload_spec("transfer"@, tick, amt)
}

/// The mint payload:
/// `{"p":"brc-20","op":"mint","tick":"<tick>","amt":"<amt>"}`.
pub open spec fn mint_payload_spec(tick: Seq<char>, amt: Seq<char>) -> Seq<char> {
    amount_payload_spec("mint"@, tick, amt)
}

/// The deploy payload:
/// `{"p":"brc-20","op":"deploy","tick":"<tick>","max":"<max>","lim":"<lim>"}`.
pub open spec fn deploy_payload_spec(tick: Seq<char>, max: Seq<char>, lim: Seq<char>) -> Seq<
    char,
> {
    payload_head() + "deploy"@ + "\",\"tick\":\""@ + tick + "\",\"max\":\""@ + max
        + "\",\"lim\":\""@ + lim + "\"}"@
}

/// Whether a string is a well-formed BRC-20 ticker identifier: its UTF-8
/// encoding must be exactly 4 or 5 bytes long.
pub open spec fn ticker_len_valid(s: Seq<char>) -> bool {
    encode_utf8(s).len() == 4 || encode_utf8(s).len() == 5
}

/// A validated BRC-20 ticker identifier.
#[derive(Debug)]
pub struct Brc20Ticker {
    ticker: String,
}

impl View for Brc20Ticker {
    type V = Seq<char>;

    closed spec fn view(&self) -> Seq<char> {
        self.ticker@
    }
}

impl Brc20Ticker {
    /// Validation is the only way to build a ticker, so every ticker holds a
    /// 4- or 5-byte identifier.
    #[verifier::type_invariant]
    closed spec fn len_invariant(self) -> bool {
        ticker_len_valid(self.ticker@)
    }
}

impl Clone for Brc20Ticker {
    /// Duplicates the ticker; the copy carries the same identifier.
    fn clone(&self) -> (r: Self)
        ensures
            r@ == self@,
    {
        proof {
            use_type_invariant(self);
        }
        Brc20Ticker { ticker: self.ticker.clone() }
    }
}

impl Brc20Ticker {
    /// Validates `string` as a BRC-20 ticker.
    ///
    /// Succeeds exactly when the identifier is 4 or 5 bytes long, wrapping it
    /// verbatim; any other length is an invalid-parameters error.
    pub fn new(string: String) -> (r: Result<Brc20Ticker, SigningError>)
        ensures
            ticker_len_valid(string@) ==> (r matches Ok(t) && t@ == string@),
            !ticker_len_valid(string@) ==> (r matches Err(e)
                && e.error_type == SigningErrorType::InvalidParams
                && e.context@ == "BRC20 ticker must be exactly 4 or 5 bytes length"@),
    {
        let len = string.as_str().as_bytes().len();
        if len != 4 && len != 5 {
            return Err(
                SigningError::new(
                    SigningErrorType::InvalidParams,
                    "BRC20 ticker must be exactly 4 or 5 bytes length",
                ),
            );
        }
        Ok(Brc20Ticker { ticker: string })
    }

    /// The identifier, exactly as it was given to [`Brc20Ticker::new`].
    ///
    /// Also reports that the identifier passed validation: the only way to
    /// hold a ticker is to have built it through [`Brc20Ticker::new`].
    pub fn as_str(&self) -> (r: &str)
        ensures
            r@ == self@,
            ticker_len_valid(self@),
    {
        proof {
            use_type_invariant(self);
        }
        self.ticker.as_str()
    }
}

/// Renders the payload shape shared by mint and transfer with the given
/// operation name.
fn amount_payload(op: &str, tick: &str, amt: &str) -> (r: String)
    ensures
        r@ == amount_payload_spec(op@, tick@, amt@),
{
    let mut payload = String::from_str("{\"p\":\"");
    payload.append(BRC20_PROTOCOL_ID);
    payload.append("\",\"op\":\"");
    payload.append(op);
    payload.append("\",\"tick\":\"");
    payload.append(tick);
    payload.append("\",\"amt\":\"");
    payload.append(amt);
    payload.append("\"}");
    proof {
        assert(payload@ =~= amount_payload_spec(op@, tick@, amt@));
    }
    payload
}

/// Renders the transfer payload for the given ticker and amount.
pub fn transfer_payload(ticker: &Brc20Ticker, amt: &str) -> (r: String)
    ensures
        r@ == transfer_payload_spec(ticker@, amt@),
{
    amount_payload("transfer", ticker.as_str(), amt)
}

/// Renders the mint payload for the given ticker and amount.
pub fn mint_payload(ticker: &Brc20Ticker, amt: &str) -> (r: String)
    ensures
        r@ == mint_payload_spec(ticker@, amt@),
{
    amount_payload("mint", ticker.as_str(), amt)
}

/// Renders the deploy payload for the given ticker, maximum supply and
/// per-mint limit.
pub fn deploy_payload(ticker: &Brc20Ticker, max: &str, lim: &str) -> (r: String)
    ensures
        r@ == deploy_payload_spec(ticker@, max@, lim@),
{
    let mut payload = String::from_str("{\"p\":\"");
    payload.append(BRC20_PROTOCOL_ID);
    payload.append("\",\"op\":\"");
    payload.append("deploy");
    payload.append("\",\"tick\":\"");
    payload.append(ticker.as_str());
    payload.append("\",\"max\":\"");
    payload.append(max);
    payload.append("\",\"lim\":\"");
    payload.append(lim);
    payload.append("\"}");
    proof {
        assert(payload@ =~= deploy_payload_spec(ticker@, max@, lim@));
    }
    payload
}

/// Whether `i` is the inscription a BRC-20 builder owes for the payload text
/// `payload_chars` and the recipient key `recipient`: the fixed MIME tag, the
/// UTF-8 bytes of the payload, and the recipient, all verbatim.
pub open spec fn inscription_matches(
    i: OrdinalsInscription,
    payload_chars: Seq<char>,
    recipient: Seq<u8>,
) -> bool {
    &&& i.spec_mime() == brc20_mime_bytes()
    &&& i.spec_payload() == encode_utf8(payload_chars)
    &&& i.spec_recipient() == recipient
}

/// Builds an inscription around the given BRC-20 payload text, addressed to
/// `recipient`, and tagged with the BRC-20 MIME type. Failures of inscription
/// construction are returned unchanged.
fn inscribe_payload(recipient: &H264, payload: &String) -> (r: Result<
    OrdinalsInscription,
    SigningError,
>)
    ensures
        payload_accepted(encode_utf8(payload@)) ==> (r matches Ok(i) && inscription_matches(
            i,
            payload@,
            recipient@,
        )),
        !payload_accepted(encode_utf8(payload@)) ==> (r matches Err(e) && is_payload_rejection(
            e,
            encode_utf8(payload@),
        )),
{
    OrdinalsInscription::new(BRC20_MIME.as_bytes(), payload.as_str().as_bytes(), recipient)
}

/// The UTF-8 encoding of a character sequence is at least as long as the
/// sequence: every scalar encodes to at least one byte.
proof fn lemma_encode_utf8_len_ge(s: Seq<char>)
    ensures
        encode_utf8(s).len() >= s.len(),
    decreases s.len(),
{
    if s.len() > 0 {
        lemma_encode_utf8_len_ge(s.drop_first());
    }
}

/// A mint or transfer payload is never empty once encoded: it begins with
/// the literal payload head.
proof fn lemma_amount_payload_nonempty(op: Seq<char>, tick: Seq<char>, amt: Seq<char>)
    ensures
        encode_utf8(amount_payload_spec(op, tick, amt)).len() >= 1,
{
    reveal_strlit("{\"p\":\"");
    lemma_encode_utf8_len_ge(amount_payload_spec(op, tick, amt));
}

/// A deploy payload is never empty once encoded: it begins with the literal
/// payload head.
proof fn lemma_deploy_payload_nonempty(tick: Seq<char>, max: Seq<char>, lim: Seq<char>)
    ensures
        encode_utf8(deploy_payload_spec(tick, max, lim)).len() >= 1,
{
    reveal_strlit("{\"p\":\"");
    lemma_encode_utf8_len_ge(deploy_payload_spec(tick, max, lim));
}

/// A transfer inscription: the transfer payload wrapped for a recipient.
#[derive(Debug)]
pub struct BRC20TransferInscription {
    inscription: OrdinalsInscription,
}

impl BRC20TransferInscription {
    /// The wrapped inscription.
    pub closed spec fn spec_inscription(&self) -> OrdinalsInscription {
        self.inscription
    }

    /// Builds the inscription carrying
    /// `{"p":"brc-20","op":"transfer","tick":"<ticker>","amt":"<value>"}`
    /// addressed to `recipient`. Succeeds exactly when the payload fits the
    /// inscription ceiling; otherwise it returns inscription construction's
    /// failure unaltered.
    pub fn new(recipient: &H264, ticker: &Brc20Ticker, value: &str) -> (r: Result<
        BRC20TransferInscription,
        SigningError,
    >)
        ensures
            encode_utf8(transfer_payload_spec(ticker@, value@)).len() <= MAX_INSCRIPTION_PAYLOAD
                ==> (r matches Ok(a) && inscription_matches(
                a.spec_inscription(),
                transfer_payload_spec(ticker@, value@),
                recipient@,
            )),
            encode_utf8(transfer_payload_spec(ticker@, value@)).len() > MAX_INSCRIPTION_PAYLOAD
                ==> (r matches Err(e) && is_payload_rejection(
                e,
                encode_utf8(transfer_payload_spec(ticker@, value@)),
            )),
    {
        proof {
            lemma_amount_payload_nonempty("transfer"@, ticker@, value@);
        }
        let payload = transfer_payload(ticker, value);
        match inscribe_payload(recipient, &payload) {
            Ok(inscription) => Ok(BRC20TransferInscription { inscription }),
            Err(e) => Err(e),
        }
    }

    /// The wrapped inscription, for read-only use.
    pub fn inscription(&self) -> (r: &OrdinalsInscription)
        ensures
            *r == self.spec_inscription(),
    {
        &self.inscription
    }
}

/// A mint inscription: the mint payload wrapped for a recipient.
#[derive(Debug)]
pub struct BRC20MintInscription {
    inscription: OrdinalsInscription,
}

impl BRC20MintInscription {
    /// The wrapped inscription.
    pub closed spec fn spec_inscription(&self) -> OrdinalsInscription {
        self.inscription
    }

    /// Builds the inscription carrying
    /// `{"p":"brc-20","op":"mint","tick":"<ticker>","amt":"<value>"}`
    /// addressed to `recipient`. Succeeds exactly when the payload fits the
    /// inscription ceiling; otherwise it returns inscription construction's
    /// failure unaltered.
    pub fn new(recipient: &H264, ticker: &Brc20Ticker, value: &str) -> (r: Result<
        BRC20MintInscription,
        SigningError,
    >)
        ensures
            encode_utf8(mint_payload_spec(ticker@, value@)).len() <= MAX_INSCRIPTION_PAYLOAD ==> (
            r matches Ok(a) && inscription_matches(
                a.spec_inscription(),
                mint_payload_spec(ticker@, value@),
                recipient@,
            )),
            encode_utf8(mint_payload_spec(ticker@, value@)).len() > MAX_INSCRIPTION_PAYLOAD ==> (
            r matches Err(e) && is_payload_rejection(
                e,
                encode_utf8(mint_payload_spec(ticker@, value@)),
            )),
    {
        proof {
            lemma_amount_payload_nonempty("mint"@, ticker@, value@);
        }
        let payload = mint_payload(ticker, value);
        match inscribe_payload(recipient, &payload) {
            Ok(inscription) => Ok(BRC20MintInscription { inscription }),
            Err(e) => Err(e),
        }
    }

    /// The wrapped inscription, for read-only use.
    pub fn inscription(&self) -> (r: &OrdinalsInscription)
        ensures
            *r == self.spec_inscription(),
    {
        &self.inscription
    }
}

/// A deploy inscription: the deploy payload wrapped for a recipient.
#[derive(Debug)]
pub struct BRC20DeployInscription {
    inscription: OrdinalsInscription,
}

impl BRC20DeployInscription {
    /// The wrapped inscription.
    pub closed spec fn spec_inscription(&self) -> OrdinalsInscription {
        self.inscription
    }

    /// Builds the inscription carrying
    /// `{"p":"brc-20","op":"deploy","tick":"<ticker>","max":"<max>","lim":"<lim>"}`
    /// addressed to `recipient`. Succeeds exactly when the payload fits the
    /// inscription ceiling; otherwise it returns inscription construction's
    /// failure unaltered.
    pub fn new(recipient: &H264, ticker: &Brc20Ticker, max: &str, lim: &str) -> (r: Result<
        BRC20DeployInscription,
        SigningError,
    >)
        ensures
            encode_utf8(deploy_payload_spec(ticker@, max@, lim@)).len() <= MAX_INSCRIPTION_PAYLOAD
                ==> (r matches Ok(a) && inscription_matches(
                a.spec_inscription(),
                deploy_payload_spec(ticker@, max@, lim@),
                recipient@,
            )),
            encode_utf8(deploy_payload_spec(ticker@, max@, lim@)).len() > MAX_INSCRIPTION_PAYLOAD
                ==> (r matches Err(e) && is_payload_rejection(
                e,
                encode_utf8(deploy_payload_spec(ticker@, max@, lim@)),
            )),
    {
        proof {
            lemma_deploy_payload_nonempty(ticker@, max@, lim@);
        }
        let payload = deploy_payload(ticker, max, lim);
        match inscribe_payload(recipient, &payload) {
            Ok(inscription) => Ok(BRC20DeployInscription { inscription }),
            Err(e) => Err(e),
        }
    }

    /// The wrapped inscription, for read-only use.
    pub fn inscription(&self) -> (r: &OrdinalsInscription)
        ensures
            *r == self.spec_inscription(),
    {
        &self.inscription
    }
}

/// For one ticker and amount, the mint and transfer payloads differ only in
/// the `op` field value: both are the same head, then the operation name,
/// then the same tail.
pub proof fn lemma_mint_transfer_differ_only_in_op(tick: Seq<char>, amt: Seq<char>)
    ensures
        transfer_payload_spec(tick, amt) == payload_head() + "transfer"@ + amount_payload_tail(
            tick,
            amt,
        ),
        mint_payload_spec(tick, amt) == payload_head() + "mint"@ + amount_payload_tail(tick, amt),
{
}

/// Builders read a ticker only through its identifier, and take it by
/// immutable borrow, so a ticker and any duplicate of it — two tickers with
/// equal identifiers — yield identical payloads.
pub proof fn lemma_equal_tickers_equal_payloads(
    t1: &Brc20Ticker,
    t2: &Brc20Ticker,
    amt: Seq<char>,
    max: Seq<char>,
    lim: Seq<char>,
)
    requires
        t1@ == t2@,
    ensures
        transfer_payload_spec(t1@, amt) == transfer_payload_spec(t2@, amt),
        mint_payload_spec(t1@, amt) == mint_payload_spec(t2@, amt),
        deploy_payload_spec(t1@, max, lim) == deploy_payload_spec(t2@, max, lim),
{
}

} // verus!
