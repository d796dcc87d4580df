//! The asset-minting side: metadata for storage, the choice of content id,
//! and the results of the mint call.
//!
//! The storage upload and the chain call are performed by the caller, which
//! hands back the status, the raw body and the fields it decoded from it.

use vstd::prelude::*;
use crate::models::text;
use crate::provider::{decimal, decimal_text, is_success};

verus! {

/// Request to mint a token for an asset.
#[derive(Debug)]
pub struct MintRequest {
    pub name: String,
    pub description: Option<String>,
    pub asset_url: Option<String>,
    pub recipient: Option<String>,
}

/// The metadata document uploaded to storage.
#[derive(Debug)]
pub struct Metadata {
    pub name: String,
    pub description: Option<String>,
    pub asset_url: Option<String>,
}

/// Where the metadata was stored.
#[derive(Debug)]
pub struct UploadResult {
    pub cid: String,
    pub url: String,
}

/// The outcome of a mint call.
#[derive(Debug)]
pub struct MintResult {
    pub tx_hash: String,
    pub token_id: Option<String>,
}

/// The answer to a successful mint request.
#[derive(Debug)]
pub struct MintResponse {
    pub status: String,
    pub upload: UploadResult,
    pub mint: MintResult,
}

/// The answer to a failed mint request.
#[derive(Debug)]
pub struct ErrorResponse {
    pub error: String,
}

pub open spec fn opt_view(o: Option<String>) -> Option<Seq<char>> {
    match o {
        Some(s) => Some(s@),
        None => None,
    }
}

fn clone_opt(o: &Option<String>) -> (r: Option<String>)
    ensures
        opt_view(r) == opt_view(*o),
{
    match o {
        Some(s) => Some(s.clone()),
        None => None,
    }
}

/// The metadata of a mint request: its name, description and asset link.
pub fn metadata_of(request: &MintRequest) -> (r: Metadata)
    ensures
        r.name@ == request.name@,
        opt_view(r.description) == opt_view(request.description),
        opt_view(r.asset_url) == opt_view(request.asset_url),
{
    Metadata {
        name: request.name.clone(),
        description: clone_opt(&request.description),
        asset_url: clone_opt(&request.asset_url),
    }
}

pub open spec fn default_recipient() -> Seq<char> {
    "default-recipient-address"@
}

/// The recipient of the token: the requested one, or the default address.
pub fn recipient_of(request: &MintRequest) -> (r: String)
    ensures
        r@ == match request.recipient {
            Some(x) => x@,
            None => default_recipient(),
        },
{
    match &request.recipient {
        Some(x) => x.clone(),
        None => text("default-recipient-address"),
    }
}

/// The public gateway address of a content id.
pub open spec fn gateway_url_of(cid: Seq<char>) -> Seq<char> {
    "https://ipfs.io/ipfs/"@ + cid
}

pub fn gateway_url(cid: &str) -> (r: String)
    ensures
        r@ == gateway_url_of(cid@),
{
    text("https://ipfs.io/ipfs/").concat(cid)
}

/// A lowercase hexadecimal digit.
pub open spec fn is_hex_digit(c: char) -> bool {
    ('0' <= c && c <= '9') || ('a' <= c && c <= 'f')
}

/// Relies on uuid's `Uuid::new_v4` and the `Display` of its `Simple` form:
/// a fresh random identifier, written as 32 lowercase hexadecimal digits.
#[verifier::external_body]
fn random_id() -> (r: String)
    ensures
        r@.len() == 32,
        forall|i: int| 0 <= i < r@.len() ==> is_hex_digit(#[trigger] r@[i]),
{
    uuid::Uuid::new_v4().simple().to_string()
}

/// The content id of a storage upload: the reply's `cid` field, else its
/// `Hash` field, else the raw reply body.
pub open spec fn chosen_cid(cid: Option<String>, hash: Option<String>, body: Seq<char>) -> Seq<char> {
    match cid {
        Some(c) => c@,
        None => match hash {
            Some(h) => h@,
            None => body,
        },
    }
}

/// Interprets the storage's answer to an upload: its status, its raw body,
/// and the `cid` and `Hash` string fields found in it, if any.
pub fn upload_result_from_reply(
    status: u16,
    body: String,
    cid: Option<String>,
    hash: Option<String>,
) -> (r: Result<UploadResult, String>)
    ensures
        !is_success(status) ==> (r matches Err(e) && e@ == "ipfs upload failed: "@ + decimal(
            status as nat,
        ) + " - "@ + body@),
        is_success(status) ==> (r matches Ok(u) && u.cid@ == chosen_cid(cid, hash, body@) && u.url@
            == gateway_url_of(u.cid@)),
{
    if !(200 <= status && status <= 299) {
        let code = decimal_text(status as u64);
        return Err(
            text("ipfs upload failed: ").concat(code.as_str()).concat(" - ").concat(body.as_str()),
        );
    }
    let cid = match cid {
        Some(c) => c,
        None => match hash {
            Some(h) => h,
            None => body,
        },
    };
    let url = gateway_url(cid.as_str());
    Ok(UploadResult { cid, url })
}

/// The upload result used when no storage is configured: a fresh content id
/// with the "bafy" prefix, and its gateway address.
pub fn mock_upload() -> (r: UploadResult)
    ensures
        r.cid@.len() == 36,
        r.cid@.subrange(0, 4) == "bafy"@,
        r.url@ == gateway_url_of(r.cid@),
{
    let id = random_id();
    let cid = text("bafy").concat(id.as_str());
    proof {
        reveal_strlit("bafy");
        assert(cid@.subrange(0, 4) =~= "bafy"@);
    }
    let url = gateway_url(cid.as_str());
    UploadResult { cid, url }
}

/// A transaction hash made up when the chain gives none: "0x" and 32
/// hexadecimal digits.
pub open spec fn is_made_up_hash(h: Seq<char>) -> bool {
    &&& h.len() == 34
    &&& h.subrange(0, 2) == "0x"@
    &&& forall|i: int| 2 <= i < 34 ==> is_hex_digit(#[trigger] h[i])
}

fn made_up_hash() -> (r: String)
    ensures
        is_made_up_hash(r@),
{
    let id = random_id();
    let h = text("0x").concat(id.as_str());
    proof {
        reveal_strlit("0x");
        assert(h@.subrange(0, 2) =~= "0x"@);
        assert forall|i: int| 2 <= i < 34 implies is_hex_digit(#[trigger] h@[i]) by {
            assert(h@[i] == id@[i - 2]);
        }
    }
    h
}

/// Interprets the chain's answer to a mint call: its status, its raw body,
/// and the `tx_hash` and `token_id` string fields decoded from it (or the
/// decoder's complaint). A missing hash is made up.
pub fn mint_result_from_reply(
    status: u16,
    body: String,
    decoded: Result<(Option<String>, Option<String>), String>,
) -> (r: Result<MintResult, String>)
    ensures
        !is_success(status) ==> (r matches Err(e) && e@ == "rpc call failed: "@ + decimal(
            status as nat,
        ) + " - "@ + body@),
        is_success(status) && decoded is Err ==> (r matches Err(e) && e@
            == "failed to parse response: "@ + decoded->Err_0@),
        is_success(status) && decoded is Ok ==> (r matches Ok(m) && opt_view(m.token_id)
            == opt_view(decoded->Ok_0.1) && match decoded->Ok_0.0 {
            Some(h) => m.tx_hash@ == h@,
            None => is_made_up_hash(m.tx_hash@),
        }),
{
    if !(200 <= status && status <= 299) {
        let code = decimal_text(status as u64);
        return Err(
            text("rpc call failed: ").concat(code.as_str()).concat(" - ").concat(body.as_str()),
        );
    }
    match decoded {
        Err(reason) => Err(text("failed to parse response: ").concat(reason.as_str())),
        Ok((tx_hash, token_id)) => {
            let tx_hash = match tx_hash {
                Some(h) => h,
                None => made_up_hash(),
            };
            Ok(MintResult { tx_hash, token_id })
        },
    }
}

/// The mint result used when no chain is configured: a made-up transaction
/// hash and a fresh token id of 32 hexadecimal digits.
pub fn mock_mint() -> (r: MintResult)
    ensures
        is_made_up_hash(r.tx_hash@),
        r.token_id matches Some(t) && t@.len() == 32,
{
    let tx_hash = made_up_hash();
    let token_id = random_id();
    MintResult { tx_hash, token_id: Some(token_id) }
}

/// The answer to a mint request whose upload and mint both succeeded.
pub fn mint_success(upload: UploadResult, mint: MintResult) -> (r: MintResponse)
    ensures
        r.status@ == "success"@,
        r.upload == upload,
        r.mint == mint,
{
    MintResponse { status: text("success"), upload, mint }
}

/// The answer to a mint request whose upload failed.
pub fn upload_error(reason: &str) -> (r: ErrorResponse)
    ensures
        r.error@ == "upload error: "@ + reason@,
{
    ErrorResponse { error: text("upload error: ").concat(reason) }
}

/// The answer to a mint request whose mint call failed.
pub fn mint_error(reason: &str) -> (r: ErrorResponse)
    ensures
        r.error@ == "mint error: "@ + reason@,
{
    ErrorResponse { error: text("mint error: ").concat(reason) }
}

} // verus!
