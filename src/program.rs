use vstd::prelude::*;

use arcium_anchor::prelude::ArgumentList;

use vstd::slice::slice_to_vec;

use crate::args::{argument_list, list_args, Argument};
use crate::codec::{decode_risk_output, spec_decode_risk, RISK_OUTPUT_LEN};
use crate::error::ErrorCode;
use crate::risk::RiskResult;
use crate::tracker::{spec_resolve, spec_submit, RequestTracker, RiskEvent};

verus! {

/// Width of a sealed scalar, and of a public key, in bytes.
pub const SEALED_WIDTH: usize = 32;

/// Maintenance margin rate handed to every risk check, in basis points.
pub const MAINT_MARGIN_BPS: u64 = 500;

/// A stored confidential position: its owner and its sealed terms.
#[derive(Clone, Copy, Debug, PartialEq, Eq)]
pub struct PerpAccount {
    pub owner: [u8; 32],
    pub encrypted_entry: [u8; 32],
    pub encrypted_size: [u8; 32],
    pub encrypted_collateral: [u8; 32],
    pub encrypted_side: [u8; 32],
}

/// Opens a confidential position: records the owner and the sealed terms.
pub fn open_position(
    owner: [u8; 32],
    enc_entry: [u8; 32],
    enc_size: [u8; 32],
    enc_col: [u8; 32],
    enc_side: [u8; 32],
) -> (r: PerpAccount)
    ensures
        r.owner == owner,
        r.encrypted_entry == enc_entry,
        r.encrypted_size == enc_size,
        r.encrypted_collateral == enc_col,
        r.encrypted_side == enc_side,
{
    PerpAccount {
        owner,
        encrypted_entry: enc_entry,
        encrypted_size: enc_size,
        encrypted_collateral: enc_col,
        encrypted_side: enc_side,
    }
}

/// Collects the arguments of one risk check by name; `build` lays them out in
/// the one order that the evaluator's entry point reads.
pub struct RiskArgs {
    pub pubkey: Option<Vec<u8>>,
    pub nonce: Option<u128>,
    pub entry_price: Option<Vec<u8>>,
    pub size: Option<Vec<u8>>,
    pub collateral: Option<Vec<u8>>,
    pub side: Option<Vec<u8>>,
    pub mark_price: Option<Vec<u8>>,
    pub maint_margin_bps: Option<u64>,
}

pub open spec fn blob_ok(b: Option<Vec<u8>>) -> bool {
    b matches Some(v) && v@.len() == SEALED_WIDTH
}

/// Every argument is present and every blob is `SEALED_WIDTH` bytes.
pub open spec fn spec_complete(b: RiskArgs) -> bool {
    blob_ok(b.pubkey) && b.nonce is Some && blob_ok(b.entry_price) && blob_ok(b.size) && blob_ok(
        b.collateral,
    ) && blob_ok(b.side) && blob_ok(b.mark_price) && b.maint_margin_bps is Some
}

pub open spec fn is_key(a: Argument, bytes: Seq<u8>) -> bool {
    a matches Argument::X25519Pubkey(k) && k@ == bytes
}

pub open spec fn is_sealed(a: Argument, bytes: Seq<u8>) -> bool {
    a matches Argument::EncryptedU64(v) && v@ == bytes
}

/// `args` hold, in the canonical order, the public key, the nonce, the four
/// position terms, the mark price and the margin rate.
pub open spec fn spec_canonical(
    args: Seq<Argument>,
    pubkey: Seq<u8>,
    nonce: u128,
    entry_price: Seq<u8>,
    size: Seq<u8>,
    collateral: Seq<u8>,
    side: Seq<u8>,
    mark_price: Seq<u8>,
    maint_margin_bps: u64,
) -> bool {
    &&& args.len() == 8
    &&& is_key(args[0], pubkey)
    &&& args[1] == Argument::PlaintextU128(nonce)
    &&& is_sealed(args[2], entry_price)
    &&& is_sealed(args[3], size)
    &&& is_sealed(args[4], collateral)
    &&& is_sealed(args[5], side)
    &&& is_sealed(args[6], mark_price)
    &&& args[7] == Argument::PlaintextU64(maint_margin_bps)
}

/// `args` are what a complete builder lays out.
pub open spec fn spec_arguments(args: Seq<Argument>, b: RiskArgs) -> bool {
    spec_canonical(
        args,
        (b.pubkey->0)@,
        b.nonce->0,
        (b.entry_price->0)@,
        (b.size->0)@,
        (b.collateral->0)@,
        (b.side->0)@,
        (b.mark_price->0)@,
        b.maint_margin_bps->0,
    )
}

/// The sealed value held in `bytes`, which are exactly `SEALED_WIDTH` long.
fn seal(bytes: &Vec<u8>) -> (r: [u8; 32])
    requires
        bytes@.len() == SEALED_WIDTH,
    ensures
        r@ == bytes@,
{
    let mut r: [u8; 32] = [0u8; 32];
    let mut i: usize = 0;
    while i < SEALED_WIDTH
        invariant
            i <= SEALED_WIDTH,
            bytes@.len() == SEALED_WIDTH,
            forall|j: int| 0 <= j < i ==> r@[j] == bytes@[j],
        decreases SEALED_WIDTH - i,
    {
        r[i] = bytes[i];
        i = i + 1;
    }
    assert(r@ =~= bytes@);
    r
}

impl RiskArgs {
    pub fn new() -> (r: RiskArgs)
        ensures
            r.pubkey is None,
            r.nonce is None,
            r.entry_price is None,
            r.size is None,
            r.collateral is None,
            r.side is None,
            r.mark_price is None,
            r.maint_margin_bps is None,
    {
        RiskArgs {
            pubkey: None,
            nonce: None,
            entry_price: None,
            size: None,
            collateral: None,
            side: None,
            mark_price: None,
            maint_margin_bps: None,
        }
    }

    /// Lays the arguments out in canonical order. Fails with
    /// `MalformedRequest` when one is missing or a blob has the wrong width.
    pub fn build(self) -> (r: Result<Vec<Argument>, ErrorCode>)
        ensures
            !spec_complete(self) <==> r == Err::<Vec<Argument>, ErrorCode>(
                ErrorCode::MalformedRequest,
            ),
            spec_complete(self) ==> r is Ok,
            r matches Ok(args) ==> spec_arguments(args@, self),
    {
        let RiskArgs {
            pubkey,
            nonce,
            entry_price,
            size,
            collateral,
            side,
            mark_price,
            maint_margin_bps,
        } = self;
        match (pubkey, nonce, entry_price, size, collateral, side, mark_price, maint_margin_bps) {
            (Some(pk), Some(n), Some(e), Some(s), Some(c), Some(sd), Some(m), Some(bps)) => {
                if pk.len() != SEALED_WIDTH || e.len() != SEALED_WIDTH || s.len() != SEALED_WIDTH
                    || c.len() != SEALED_WIDTH || sd.len() != SEALED_WIDTH || m.len()
                    != SEALED_WIDTH {
                    return Err(ErrorCode::MalformedRequest);
                }
                let mut args: Vec<Argument> = Vec::new();
                args.push(Argument::X25519Pubkey(seal(&pk)));
                args.push(Argument::PlaintextU128(n));
                args.push(Argument::EncryptedU64(seal(&e)));
                args.push(Argument::EncryptedU64(seal(&s)));
                args.push(Argument::EncryptedU64(seal(&c)));
                args.push(Argument::EncryptedU64(seal(&sd)));
                args.push(Argument::EncryptedU64(seal(&m)));
                args.push(Argument::PlaintextU64(bps));
                Ok(args)
            },
            _ => Err(ErrorCode::MalformedRequest),
        }
    }
}

/// Prepares a risk check of `position` as request `computation_offset`:
/// lays out its arguments, with the fixed maintenance margin rate, and admits
/// the request to the tracker. An identifier already known is refused with
/// `DuplicateSubmission`.
pub fn check_risk(
    tracker: &mut RequestTracker,
    computation_offset: u64,
    position: &PerpAccount,
    enc_mark_price: [u8; 32],
    pubkey: [u8; 32],
    nonce: u128,
) -> (r: Result<ArgumentList, ErrorCode>)
    ensures
        final(tracker)@ == spec_submit(old(tracker)@, computation_offset).0,
        old(tracker)@.contains_key(computation_offset) <==> r is Err,
        r is Err ==> r == Err::<ArgumentList, ErrorCode>(ErrorCode::DuplicateSubmission),
        r matches Ok(l) ==> spec_canonical(
            list_args(l),
            pubkey@,
            nonce,
            position.encrypted_entry@,
            position.encrypted_size@,
            position.encrypted_collateral@,
            position.encrypted_side@,
            enc_mark_price@,
            MAINT_MARGIN_BPS,
        ),
{
    let request = RiskArgs {
        pubkey: Some(slice_to_vec(pubkey.as_slice())),
        nonce: Some(nonce),
        entry_price: Some(slice_to_vec(position.encrypted_entry.as_slice())),
        size: Some(slice_to_vec(position.encrypted_size.as_slice())),
        collateral: Some(slice_to_vec(position.encrypted_collateral.as_slice())),
        side: Some(slice_to_vec(position.encrypted_side.as_slice())),
        mark_price: Some(slice_to_vec(enc_mark_price.as_slice())),
        maint_margin_bps: Some(MAINT_MARGIN_BPS),
    };
    assert(spec_complete(request));
    let args = match request.build() {
        Ok(a) => a,
        Err(e) => {
            return Err(e);
        },
    };
    match tracker.submit(computation_offset) {
        Ok(()) => Ok(argument_list(&args)),
        Err(e) => Err(e),
    }
}

/// What the execution boundary hands back for a request.
#[derive(Debug, PartialEq, Eq)]
pub enum ComputationOutput {
    /// The result was authenticated against the executing cluster.
    Verified(Vec<u8>),
    /// The execution service reported that the computation aborted.
    Aborted,
    /// The result did not authenticate.
    SignatureMismatch,
}

/// The outcome that a returned output stands for.
pub open spec fn spec_outcome(output: ComputationOutput) -> Result<RiskResult, ErrorCode> {
    match output {
        ComputationOutput::Verified(p) => if p@.len() < RISK_OUTPUT_LEN {
            Err(ErrorCode::DecodeError)
        } else {
            Ok(spec_decode_risk(p@))
        },
        _ => Err(ErrorCode::AbortedComputation),
    }
}

/// Handles the result of request `computation_offset`: an authenticated
/// payload is decoded into a verdict and resolves the request, with the event
/// to emit; an abort, a failed authentication or a short payload aborts it.
pub fn check_risk_callback(
    tracker: &mut RequestTracker,
    computation_offset: u64,
    output: ComputationOutput,
) -> (r: Result<RiskEvent, ErrorCode>)
    ensures
        (final(tracker)@, r) == spec_resolve(old(tracker)@, computation_offset, spec_outcome(output)),
{
    let outcome = match output {
        ComputationOutput::Verified(payload) => decode_risk_output(payload.as_slice()),
        _ => Err(ErrorCode::AbortedComputation),
    };
    tracker.resolve(computation_offset, outcome)
}

} // verus!
