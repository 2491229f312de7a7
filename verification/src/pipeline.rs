//! One request, stage by stage.
//!
//! A request runs through five stages in order: resolve, fetch, normalise,
//! prove, decode and assemble. Fetching and proving happen outside this
//! crate. The functions here decide what comes next: `resolve` admits the
//! request or refuses it, `after_fetch` takes the outcome of the fetch and
//! gives the job to prove, `after_proof` takes the outcome of the proving
//! run and gives what is to be persisted and answered. Each takes the state
//! that the stage before it gave and uses it up, so no stage runs twice for
//! one request. The first failure ends the request; nothing is persisted
//! unless `after_proof` returns `Ok`.

use crate::address::{
    address_bytes, agent_id, agent_id_of, checksummed_address, parse_checksummed,
};
use crate::allocation::{commitment_of, meets_target, output_decodes, ProofInputs};
use crate::asset::{Asset, TOKEN_DECIMALS};
use crate::balance::{lemma_whole_units_range, normalize, whole_units, RawBalances};
use crate::commitment::{decode, decoding, display_chars, encoding, DecodeError};
use crate::fixture::{
    assemble_fixture, assemble_response, fixture_of, response_of, Fixture, FixtureView,
    ProofResponse, ProofResponseView,
};
use crate::hexfmt::prefixed_hex_chars;
use crate::variant::{name_chars, selection, Variant};
use vstd::prelude::*;
use vstd::string::StringExecFns;

verus! {

/// What is wrong with a request.
#[derive(Debug, PartialEq, Eq)]
pub enum RequestFault {
    /// The requested backend name, which stands for no backend.
    UnknownVariant(String),
    /// The agent text, which is no checksummed address.
    MalformedAddress(String),
}

/// Why a request ended without a fixture.
#[derive(Debug, PartialEq, Eq)]
pub enum PipelineError {
    /// The request itself is at fault; nothing was fetched or proved.
    InvalidRequest(RequestFault),
    /// An outside service failed or ran out of time, with what is known of
    /// it.
    UpstreamError(String),
    /// The named asset's whole-unit balance does not fit in 64 bits.
    BalanceOverflow(Asset),
    /// The proving backend failed, with what it reported.
    ProvingFailure(String),
    /// The backend's committed output is no commitment.
    DecodeError(DecodeError),
}

/// A request fault as plain values.
pub enum RequestFaultView {
    UnknownVariant(Seq<char>),
    MalformedAddress(Seq<char>),
}

/// A pipeline error as plain values.
pub enum PipelineErrorView {
    InvalidRequest(RequestFaultView),
    UpstreamError(Seq<char>),
    BalanceOverflow(Asset),
    ProvingFailure(Seq<char>),
    DecodeError(DecodeError),
}

impl View for RequestFault {
    type V = RequestFaultView;

    open spec fn view(&self) -> RequestFaultView {
        match self {
            RequestFault::UnknownVariant(name) => RequestFaultView::UnknownVariant(name@),
            RequestFault::MalformedAddress(agent) => RequestFaultView::MalformedAddress(agent@),
        }
    }
}

impl View for PipelineError {
    type V = PipelineErrorView;

    open spec fn view(&self) -> PipelineErrorView {
        match self {
            PipelineError::InvalidRequest(fault) => PipelineErrorView::InvalidRequest(fault@),
            PipelineError::UpstreamError(detail) => PipelineErrorView::UpstreamError(detail@),
            PipelineError::BalanceOverflow(asset) => PipelineErrorView::BalanceOverflow(*asset),
            PipelineError::ProvingFailure(detail) => PipelineErrorView::ProvingFailure(detail@),
            PipelineError::DecodeError(cause) => PipelineErrorView::DecodeError(*cause),
        }
    }
}

/// A request that passed the first stage.
#[derive(Debug, PartialEq, Eq)]
pub struct Request {
    /// The agent as the request spelled it.
    pub agent: String,
    /// The agent's address.
    pub address: [u8; 20],
    /// The identifier derived from the address.
    pub agent_id: u64,
    /// The backend that will prove.
    pub variant: Variant,
}

/// An admitted request as plain values.
pub struct RequestView {
    pub agent: Seq<char>,
    pub address: Seq<u8>,
    pub agent_id: u64,
    pub variant: Variant,
}

impl View for Request {
    type V = RequestView;

    open spec fn view(&self) -> RequestView {
        RequestView {
            agent: self.agent@,
            address: self.address@,
            agent_id: self.agent_id,
            variant: self.variant,
        }
    }
}

/// A request whose balances are fetched and normalised: what is to be
/// proved, by which backend, and what the response will show beside it.
#[derive(Debug, PartialEq, Eq)]
pub struct ProofJob {
    /// The agent as the request spelled it.
    pub agent: String,
    /// The backend that will prove.
    pub variant: Variant,
    /// The balances as they were fetched.
    pub raw: RawBalances,
    /// What the verifiable computation is to read.
    pub inputs: ProofInputs,
}

/// A proof job as plain values.
pub struct ProofJobView {
    pub agent: Seq<char>,
    pub variant: Variant,
    pub raw: RawBalances,
    pub inputs: ProofInputs,
}

impl View for ProofJob {
    type V = ProofJobView;

    open spec fn view(&self) -> ProofJobView {
        ProofJobView {
            agent: self.agent@,
            variant: self.variant,
            raw: self.raw,
            inputs: self.inputs,
        }
    }
}

/// What a proving run hands back: the bytes that the computation
/// committed, the fingerprint of the verifying key, and the proof's bytes
/// (empty for a backend whose proofs no chain can verify).
#[derive(Debug, PartialEq, Eq)]
pub struct ProofArtifact {
    pub public_values: Vec<u8>,
    pub vkey: String,
    pub proof_bytes: Vec<u8>,
}

/// A proof artifact as plain values.
pub struct ProofArtifactView {
    pub public_values: Seq<u8>,
    pub vkey: Seq<char>,
    pub proof_bytes: Seq<u8>,
}

impl View for ProofArtifact {
    type V = ProofArtifactView;

    open spec fn view(&self) -> ProofArtifactView {
        ProofArtifactView {
            public_values: self.public_values@,
            vkey: self.vkey@,
            proof_bytes: self.proof_bytes@,
        }
    }
}

/// What a completed request leaves: the fixture, the name of the file that
/// is to hold it, and the response.
#[derive(Debug, PartialEq, Eq)]
pub struct Completed {
    pub file_name: String,
    pub fixture: Fixture,
    pub response: ProofResponse,
}

/// A completed request as plain values.
pub struct CompletedView {
    pub file_name: Seq<char>,
    pub fixture: FixtureView,
    pub response: ProofResponseView,
}

impl View for Completed {
    type V = CompletedView;

    open spec fn view(&self) -> CompletedView {
        CompletedView {
            file_name: self.file_name@,
            fixture: self.fixture@,
            response: self.response@,
        }
    }
}

/// The outcome of a fetch as plain values.
pub open spec fn fetched_view(fetched: Result<RawBalances, String>) -> Result<
    RawBalances,
    Seq<char>,
> {
    match fetched {
        Ok(raw) => Ok(raw),
        Err(detail) => Err(detail@),
    }
}

/// How a proving run ended.
#[derive(Debug, PartialEq, Eq)]
pub enum ProofOutcome {
    /// The backend completed a proof.
    Proved(ProofArtifact),
    /// The backend failed, with what it reported.
    Failed(String),
    /// The time allowed for proving ran out.
    TimedOut,
}

/// The end of a proving run as plain values.
pub enum ProofOutcomeView {
    Proved(ProofArtifactView),
    Failed(Seq<char>),
    TimedOut,
}

impl View for ProofOutcome {
    type V = ProofOutcomeView;

    open spec fn view(&self) -> ProofOutcomeView {
        match self {
            ProofOutcome::Proved(artifact) => ProofOutcomeView::Proved(artifact@),
            ProofOutcome::Failed(detail) => ProofOutcomeView::Failed(detail@),
            ProofOutcome::TimedOut => ProofOutcomeView::TimedOut,
        }
    }
}

/// An error's tag.
pub open spec fn tag_chars(error: PipelineErrorView) -> Seq<char> {
    match error {
        PipelineErrorView::InvalidRequest(_) => "InvalidRequest"@,
        PipelineErrorView::UpstreamError(_) => "UpstreamError"@,
        PipelineErrorView::BalanceOverflow(_) => "BalanceOverflow"@,
        PipelineErrorView::ProvingFailure(_) => "ProvingFailure"@,
        PipelineErrorView::DecodeError(_) => "DecodeError"@,
    }
}

/// What an error says beyond its tag.
pub open spec fn detail_chars(error: PipelineErrorView) -> Seq<char> {
    match error {
        PipelineErrorView::InvalidRequest(RequestFaultView::UnknownVariant(name)) =>
            "Invalid proof system: "@ + name,
        PipelineErrorView::InvalidRequest(RequestFaultView::MalformedAddress(agent)) =>
            "Invalid agent address: "@ + agent,
        PipelineErrorView::UpstreamError(detail) => detail,
        PipelineErrorView::BalanceOverflow(asset) => asset.symbol_spec() + " balance overflow"@,
        PipelineErrorView::ProvingFailure(detail) => "failed to generate proof: "@ + detail,
        PipelineErrorView::DecodeError(DecodeError::InvalidLength) =>
            "failed to decode public values: wrong length"@,
        PipelineErrorView::DecodeError(DecodeError::InvalidFlag) =>
            "failed to decode public values: validity flag is neither 0 nor 1"@,
    }
}

/// The message that the caller sees: the tag, a colon and a space, and the
/// detail.
pub open spec fn message_chars(error: PipelineErrorView) -> Seq<char> {
    tag_chars(error) + ": "@ + detail_chars(error)
}

/// The first stage, given what the agent text parses to: a text that is no
/// checksummed address is refused; otherwise the request is admitted with
/// the identifier that its address gives.
pub open spec fn admission(agent: Seq<char>, variant: Variant, parsed: Option<Seq<u8>>) -> Result<
    RequestView,
    PipelineErrorView,
> {
    match parsed {
        None => Err(PipelineErrorView::InvalidRequest(RequestFaultView::MalformedAddress(agent))),
        Some(address) => Ok(
            RequestView { agent, address, agent_id: agent_id_of(address) as u64, variant },
        ),
    }
}

/// The first stage: an unknown backend name is refused whatever the agent
/// text is; then the agent text is parsed.
pub open spec fn resolution(agent: Seq<char>, system: Option<Seq<char>>) -> Result<
    RequestView,
    PipelineErrorView,
> {
    match selection(system) {
        None => Err(
            PipelineErrorView::InvalidRequest(RequestFaultView::UnknownVariant(system.unwrap())),
        ),
        Some(variant) => admission(agent, variant, checksummed_address(agent)),
    }
}

/// The third stage: each raw balance in whole units, or the first asset,
/// in asset order, whose whole-unit balance does not fit in 64 bits.
pub open spec fn normalization(agent_id: u64, raw: RawBalances) -> Result<
    ProofInputs,
    PipelineErrorView,
> {
    let wbtc = whole_units(raw.wbtc@, TOKEN_DECIMALS as nat);
    let eth = whole_units(raw.eth@, TOKEN_DECIMALS as nat);
    let doge = whole_units(raw.doge@, TOKEN_DECIMALS as nat);
    if wbtc > u64::MAX {
        Err(PipelineErrorView::BalanceOverflow(Asset::Wbtc))
    } else if eth > u64::MAX {
        Err(PipelineErrorView::BalanceOverflow(Asset::Eth))
    } else if doge > u64::MAX {
        Err(PipelineErrorView::BalanceOverflow(Asset::Doge))
    } else {
        Ok(ProofInputs { agent_id, wbtc: wbtc as u64, eth: eth as u64, doge: doge as u64 })
    }
}

/// The second and third stage: a failed fetch ends the request; fetched
/// balances are normalised and, where they fit, make the proof job.
pub open spec fn fetch_outcome(request: RequestView, fetched: Result<RawBalances, Seq<char>>)
    -> Result<ProofJobView, PipelineErrorView> {
    match fetched {
        Err(detail) => Err(PipelineErrorView::UpstreamError(detail)),
        Ok(raw) => match normalization(request.agent_id, raw) {
            Err(error) => Err(error),
            Ok(inputs) => Ok(
                ProofJobView { agent: request.agent, variant: request.variant, raw, inputs },
            ),
        },
    }
}

/// The fourth and fifth stage: a failed proving run ends the request, one
/// that ran out of time ends it as an upstream failure, and so does
/// committed output that does not decode; a decoded commitment gives the
/// fixture, its file name and the response.
pub open spec fn proof_outcome(job: ProofJobView, proved: ProofOutcomeView) -> Result<
    CompletedView,
    PipelineErrorView,
> {
    match proved {
        ProofOutcomeView::Failed(detail) => Err(PipelineErrorView::ProvingFailure(detail)),
        ProofOutcomeView::TimedOut => Err(PipelineErrorView::UpstreamError("proving timed out"@)),
        ProofOutcomeView::Proved(artifact) => match decoding(artifact.public_values) {
            Err(cause) => Err(PipelineErrorView::DecodeError(cause)),
            Ok(c) => {
                let fixture = fixture_of(c, artifact.vkey, job.variant, artifact.proof_bytes);
                Ok(
                    CompletedView {
                        file_name: job.variant.fixture_file_name_spec(),
                        fixture,
                        response: response_of(job.agent, job.raw, fixture),
                    },
                )
            },
        },
    }
}

impl PipelineError {
    /// The error's tag, which tells the five kinds of failure apart.
    pub fn tag(&self) -> (text: &'static str)
        ensures
            text@ == tag_chars(self@),
    {
        match self {
            PipelineError::InvalidRequest(_) => "InvalidRequest",
            PipelineError::UpstreamError(_) => "UpstreamError",
            PipelineError::BalanceOverflow(_) => "BalanceOverflow",
            PipelineError::ProvingFailure(_) => "ProvingFailure",
            PipelineError::DecodeError(_) => "DecodeError",
        }
    }

    /// The message that is surfaced to the caller.
    pub fn message(&self) -> (text: String)
        ensures
            text@ == message_chars(self@),
    {
        let head = String::from_str(self.tag()).concat(": ");
        match self {
            PipelineError::InvalidRequest(RequestFault::UnknownVariant(name)) => head.concat(
                "Invalid proof system: ",
            ).concat(name.as_str()),
            PipelineError::InvalidRequest(RequestFault::MalformedAddress(agent)) => head.concat(
                "Invalid agent address: ",
            ).concat(agent.as_str()),
            PipelineError::UpstreamError(detail) => head.concat(detail.as_str()),
            PipelineError::BalanceOverflow(asset) => head.concat(asset.symbol()).concat(
                " balance overflow",
            ),
            PipelineError::ProvingFailure(detail) => head.concat(
                "failed to generate proof: ",
            ).concat(detail.as_str()),
            PipelineError::DecodeError(DecodeError::InvalidLength) => head.concat(
                "failed to decode public values: wrong length",
            ),
            PipelineError::DecodeError(DecodeError::InvalidFlag) => head.concat(
                "failed to decode public values: validity flag is neither 0 nor 1",
            ),
        }
    }
}

/// Admits a request whose backend is chosen, given what its agent text
/// parsed to.
pub fn accept(agent: &str, variant: Variant, parsed: Option<[u8; 20]>) -> (result: Result<
    Request,
    PipelineError,
>)
    ensures
        (match result {
            Ok(request) => admission(agent@, variant, address_bytes(parsed)) == Ok::<
                RequestView,
                PipelineErrorView,
            >(request@),
            Err(error) => admission(agent@, variant, address_bytes(parsed)) == Err::<
                RequestView,
                PipelineErrorView,
            >(error@),
        }),
{
    match parsed {
        None => Err(
            PipelineError::InvalidRequest(RequestFault::MalformedAddress(String::from_str(agent))),
        ),
        Some(address) => {
            let id: u64 = agent_id(&address);
            Ok(Request { agent: String::from_str(agent), address, agent_id: id, variant })
        },
    }
}

/// The first stage. The backend name is looked at first: where it is
/// unknown the request is refused for it, whatever the agent text is.
pub fn resolve(agent: &str, system: Option<&str>) -> (result: Result<Request, PipelineError>)
    ensures
        (match result {
            Ok(request) => resolution(agent@, name_chars(system)) == Ok::<
                RequestView,
                PipelineErrorView,
            >(request@),
            Err(error) => resolution(agent@, name_chars(system)) == Err::<
                RequestView,
                PipelineErrorView,
            >(error@),
        }),
{
    match Variant::select(system) {
        Err(unknown) => Err(
            PipelineError::InvalidRequest(RequestFault::UnknownVariant(unknown.name)),
        ),
        Ok(variant) => {
            let parsed = parse_checksummed(agent);
            accept(agent, variant, parsed)
        },
    }
}

/// The third stage: normalises the three raw balances, in asset order, and
/// stops at the first that overflows.
pub fn normalize_balances(agent_id: u64, raw: &RawBalances) -> (result: Result<
    ProofInputs,
    PipelineError,
>)
    ensures
        (match result {
            Ok(inputs) => normalization(agent_id, *raw) == Ok::<ProofInputs, PipelineErrorView>(
                inputs,
            ),
            Err(error) => normalization(agent_id, *raw) == Err::<ProofInputs, PipelineErrorView>(
                error@,
            ),
        }),
{
    let wbtc: u64 = match normalize(&raw.wbtc, TOKEN_DECIMALS) {
        Ok(units) => units,
        Err(_) => {
            return Err(PipelineError::BalanceOverflow(Asset::Wbtc));
        },
    };
    let eth: u64 = match normalize(&raw.eth, TOKEN_DECIMALS) {
        Ok(units) => units,
        Err(_) => {
            return Err(PipelineError::BalanceOverflow(Asset::Eth));
        },
    };
    let doge: u64 = match normalize(&raw.doge, TOKEN_DECIMALS) {
        Ok(units) => units,
        Err(_) => {
            return Err(PipelineError::BalanceOverflow(Asset::Doge));
        },
    };
    Ok(ProofInputs { agent_id, wbtc, eth, doge })
}

/// Takes the outcome of the fetch and gives the job to prove.
pub fn after_fetch(request: Request, fetched: Result<RawBalances, String>) -> (result: Result<
    ProofJob,
    PipelineError,
>)
    ensures
        (match result {
            Ok(job) => fetch_outcome(request@, fetched_view(fetched)) == Ok::<
                ProofJobView,
                PipelineErrorView,
            >(job@),
            Err(error) => fetch_outcome(request@, fetched_view(fetched)) == Err::<
                ProofJobView,
                PipelineErrorView,
            >(error@),
        }),
{
    match fetched {
        Err(detail) => Err(PipelineError::UpstreamError(detail)),
        Ok(raw) => match normalize_balances(request.agent_id, &raw) {
            Err(error) => Err(error),
            Ok(inputs) => Ok(
                ProofJob { agent: request.agent, variant: request.variant, raw, inputs },
            ),
        },
    }
}

/// Takes the outcome of the proving run and gives what is to be persisted
/// and answered.
pub fn after_proof(job: ProofJob, proved: ProofOutcome) -> (result: Result<
    Completed,
    PipelineError,
>)
    ensures
        (match result {
            Ok(done) => proof_outcome(job@, proved@) == Ok::<CompletedView, PipelineErrorView>(
                done@,
            ),
            Err(error) => proof_outcome(job@, proved@) == Err::<CompletedView, PipelineErrorView>(
                error@,
            ),
        }),
{
    match proved {
        ProofOutcome::Failed(detail) => Err(PipelineError::ProvingFailure(detail)),
        ProofOutcome::TimedOut => Err(
            PipelineError::UpstreamError(String::from_str("proving timed out")),
        ),
        ProofOutcome::Proved(artifact) => match decode(artifact.public_values.as_slice()) {
            Err(cause) => Err(PipelineError::DecodeError(cause)),
            Ok(c) => {
                let fixture = assemble_fixture(
                    &c,
                    artifact.vkey.as_str(),
                    job.variant,
                    artifact.proof_bytes.as_slice(),
                );
                let response = assemble_response(job.agent.as_str(), &job.raw, &fixture);
                Ok(Completed { file_name: job.variant.fixture_file_name(), fixture, response })
            },
        },
    }
}

/// A backend name that stands for no backend ends the request at the first
/// stage, whatever the agent text is: no request is admitted, so nothing is
/// fetched or proved for it.
pub proof fn unknown_system_is_refused(agent: Seq<char>, name: Seq<char>)
    requires
        selection(Some(name)) is None,
    ensures
        resolution(agent, Some(name)) == Err::<RequestView, PipelineErrorView>(
            PipelineErrorView::InvalidRequest(RequestFaultView::UnknownVariant(name)),
        ),
{
}

/// Two errors with the same message have the same tag.
pub proof fn messages_tell_tags_apart(a: PipelineErrorView, b: PipelineErrorView)
    requires
        message_chars(a) == message_chars(b),
    ensures
        tag_chars(a) == tag_chars(b),
{
    reveal_strlit("InvalidRequest");
    reveal_strlit("UpstreamError");
    reveal_strlit("BalanceOverflow");
    reveal_strlit("ProvingFailure");
    reveal_strlit("DecodeError");
    assert(message_chars(a)[0] == tag_chars(a)[0]);
    assert(message_chars(b)[0] == tag_chars(b)[0]);
}

/// Where the balances normalise and the backend commits what the
/// verifiable computation emits for them, the request completes; its
/// verdict is whether the whole-unit balances are exactly the targets, and
/// the fixture and the response carry the agent identifier and the
/// whole-unit balances as they were, not the targets.
pub proof fn verdict_follows_balances(
    request: RequestView,
    raw: RawBalances,
    vkey: Seq<char>,
    proof_bytes: Seq<u8>,
)
    requires
        normalization(request.agent_id, raw) is Ok,
    ensures
        ({
            let fetched = Ok::<RawBalances, Seq<char>>(raw);
            let job = fetch_outcome(request, fetched)->Ok_0;
            let c = commitment_of(job.inputs);
            let proved = ProofOutcomeView::Proved(
                ProofArtifactView { public_values: encoding(c), vkey, proof_bytes },
            );
            let done = proof_outcome(job, proved)->Ok_0;
            &&& fetch_outcome(request, fetched) is Ok
            &&& job.inputs.agent_id == request.agent_id
            &&& job.inputs.wbtc == whole_units(raw.wbtc@, TOKEN_DECIMALS as nat)
            &&& job.inputs.eth == whole_units(raw.eth@, TOKEN_DECIMALS as nat)
            &&& job.inputs.doge == whole_units(raw.doge@, TOKEN_DECIMALS as nat)
            &&& proof_outcome(job, proved) is Ok
            &&& done.fixture == fixture_of(c, vkey, request.variant, proof_bytes)
            &&& done.fixture.is_valid == meets_target(
                job.inputs.wbtc,
                job.inputs.eth,
                job.inputs.doge,
            )
            &&& done.response.is_valid == done.fixture.is_valid
            &&& done.fixture.agent == display_chars(request.agent_id)
            &&& done.fixture.wbtc_bal == display_chars(job.inputs.wbtc)
            &&& done.fixture.eth_bal == display_chars(job.inputs.eth)
            &&& done.fixture.doge_bal == display_chars(job.inputs.doge)
            &&& done.fixture.public_values == prefixed_hex_chars(encoding(c))
        }),
{
    let inputs = normalization(request.agent_id, raw)->Ok_0;
    lemma_whole_units_range(raw.wbtc@, TOKEN_DECIMALS as nat);
    lemma_whole_units_range(raw.eth@, TOKEN_DECIMALS as nat);
    lemma_whole_units_range(raw.doge@, TOKEN_DECIMALS as nat);
    output_decodes(inputs);
}

} // verus!
