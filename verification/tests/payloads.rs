use brc20::brc20::{
    deploy_payload, mint_payload, transfer_payload, Brc20Ticker, BRC20DeployInscription,
    BRC20MintInscription, BRC20TransferInscription, BRC20_MIME, BRC20_PROTOCOL_ID,
};
use brc20::errors::{SigningError, SigningErrorType};
use brc20::hash::H264;
use brc20::ordinal::{OrdinalsInscription, MAX_INSCRIPTION_PAYLOAD};

fn recipient() -> H264 {
    H264::new([7u8; 33])
}

fn ticker(s: &str) -> Brc20Ticker {
    Brc20Ticker::new(s.to_string()).unwrap()
}

#[test]
fn recipient_key_holds_its_bytes() {
    let mut bytes = [0u8; 33];
    bytes[0] = 2;
    bytes[32] = 9;
    let key = H264::new(bytes);
    assert_eq!(key.as_slice(), &bytes);
    assert_eq!(key, H264::new(bytes));
}

#[test]
fn protocol_constants() {
    assert_eq!(BRC20_PROTOCOL_ID, "brc-20");
    assert_eq!(BRC20_MIME, "text/plain;charset=utf-8");
}

#[test]
fn transfer_payload_text() {
    let payload = transfer_payload(&ticker("asdf"), "100");
    assert_eq!(
        payload,
        "{\"p\":\"brc-20\",\"op\":\"transfer\",\"tick\":\"asdf\",\"amt\":\"100\"}"
    );
}

#[test]
fn mint_payload_text() {
    let payload = mint_payload(&ticker("asdf"), "100");
    assert_eq!(
        payload,
        "{\"p\":\"brc-20\",\"op\":\"mint\",\"tick\":\"asdf\",\"amt\":\"100\"}"
    );
}

#[test]
fn deploy_payload_text() {
    let payload = deploy_payload(&ticker("ordi"), "21000000", "1000");
    assert_eq!(
        payload,
        "{\"p\":\"brc-20\",\"op\":\"deploy\",\"tick\":\"ordi\",\"max\":\"21000000\",\"lim\":\"1000\"}"
    );
}

#[test]
fn transfer_inscription_wraps_payload() {
    let key = recipient();
    let artifact = BRC20TransferInscription::new(&key, &ticker("asdf"), "100").unwrap();
    let inscription = artifact.inscription();
    assert_eq!(inscription.mime(), "text/plain;charset=utf-8".as_bytes());
    assert_eq!(
        inscription.payload(),
        "{\"p\":\"brc-20\",\"op\":\"transfer\",\"tick\":\"asdf\",\"amt\":\"100\"}".as_bytes()
    );
    assert_eq!(inscription.recipient(), &key);
}

#[test]
fn mint_inscription_wraps_payload() {
    let key = recipient();
    let artifact = BRC20MintInscription::new(&key, &ticker("oexc"), "5").unwrap();
    let inscription = artifact.inscription();
    assert_eq!(inscription.mime(), "text/plain;charset=utf-8".as_bytes());
    assert_eq!(
        inscription.payload(),
        "{\"p\":\"brc-20\",\"op\":\"mint\",\"tick\":\"oexc\",\"amt\":\"5\"}".as_bytes()
    );
    assert_eq!(inscription.recipient(), &key);
}

#[test]
fn deploy_inscription_wraps_payload() {
    let key = recipient();
    let artifact = BRC20DeployInscription::new(&key, &ticker("ordi"), "21000000", "1000").unwrap();
    let inscription = artifact.inscription();
    assert_eq!(inscription.mime(), "text/plain;charset=utf-8".as_bytes());
    assert_eq!(
        inscription.payload(),
        "{\"p\":\"brc-20\",\"op\":\"deploy\",\"tick\":\"ordi\",\"max\":\"21000000\",\"lim\":\"1000\"}"
            .as_bytes()
    );
    assert_eq!(inscription.recipient(), &key);
}

#[test]
fn mint_and_transfer_differ_only_in_op() {
    let t = ticker("asdf");
    let transfer = transfer_payload(&t, "100");
    let mint = mint_payload(&t, "100");
    assert_eq!(transfer.replacen("transfer", "mint", 1), mint);
    assert_eq!(mint.replacen("mint", "transfer", 1), transfer);
}

#[test]
fn duplicated_ticker_builds_identical_payloads() {
    let original = ticker("asdf");
    let copy = original.clone();
    assert_eq!(
        transfer_payload(&original, "100"),
        transfer_payload(&copy, "100")
    );
    assert_eq!(mint_payload(&original, "42"), mint_payload(&copy, "42"));
    assert_eq!(
        deploy_payload(&original, "21000000", "1000"),
        deploy_payload(&copy, "21000000", "1000")
    );
    // The original is untouched and still usable after the copy was used.
    assert_eq!(original.as_str(), "asdf");
}

#[test]
fn inscription_accepts_payloads_up_to_the_ceiling() {
    let key = recipient();
    let full = vec![b'x'; MAX_INSCRIPTION_PAYLOAD];
    let inscription = OrdinalsInscription::new("text/plain".as_bytes(), &full, &key).unwrap();
    assert_eq!(inscription.payload().len(), MAX_INSCRIPTION_PAYLOAD);
    assert_eq!(inscription.mime(), "text/plain".as_bytes());
    assert_eq!(inscription.recipient(), &key);
}

#[test]
fn inscription_rejects_an_empty_payload() {
    let key = recipient();
    let r = OrdinalsInscription::new("text/plain".as_bytes(), &[], &key);
    assert_eq!(
        r.unwrap_err(),
        SigningError::new(
            SigningErrorType::InvalidParams,
            "inscription payload must not be empty"
        )
    );
}

#[test]
fn inscription_rejects_an_oversized_payload() {
    let key = recipient();
    let oversized = vec![b'x'; MAX_INSCRIPTION_PAYLOAD + 1];
    let r = OrdinalsInscription::new("text/plain".as_bytes(), &oversized, &key);
    assert_eq!(
        r.unwrap_err(),
        SigningError::new(
            SigningErrorType::OversizedPayload,
            "inscription payload exceeds the witness size ceiling"
        )
    );
}

#[test]
fn builder_propagates_the_inscription_failure_unaltered() {
    let key = recipient();
    let t = ticker("asdf");
    // An amount so long that the rendered payload exceeds the ceiling.
    let huge_amount = "1".repeat(MAX_INSCRIPTION_PAYLOAD);
    let expected = SigningError::new(
        SigningErrorType::OversizedPayload,
        "inscription payload exceeds the witness size ceiling",
    );

    let transfer = BRC20TransferInscription::new(&key, &t, &huge_amount);
    assert_eq!(transfer.unwrap_err(), expected);

    let mint = BRC20MintInscription::new(&key, &t, &huge_amount);
    assert_eq!(mint.unwrap_err(), expected);

    let deploy = BRC20DeployInscription::new(&key, &t, &huge_amount, "1000");
    assert_eq!(deploy.unwrap_err(), expected);
}
