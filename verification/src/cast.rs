//! The cast orchestrator's state machine: the strictly ordered control
//! sequence `PrepareForConnection`, `SetAVTransportURI`, `Play`, advancing
//! on success and stopping at the first failure.  The I/O shell performs
//! each request and hands the outcome back.

use crate::soap::av_transport_url;
use crate::soap::av_transport_url_spec;
use crate::soap::build_didl_metadata;
use crate::soap::build_play_envelope;
use crate::soap::build_prepare_envelope;
use crate::soap::build_set_uri_envelope;
use crate::soap::connection_manager_url;
use crate::soap::connection_manager_url_spec;
use crate::soap::didl_metadata_spec;
use crate::soap::play_action;
use crate::soap::play_action_spec;
use crate::soap::play_envelope_spec;
use crate::soap::prepare_action;
use crate::soap::prepare_action_spec;
use crate::soap::prepare_envelope_spec;
use crate::soap::set_uri_action;
use crate::soap::set_uri_action_spec;
use crate::soap::set_uri_envelope_spec;
use vstd::prelude::*;

verus! {

/// A stage of the cast control sequence.
#[derive(Debug, Clone, Copy, PartialEq, Eq, Structural)]
pub enum CastStage {
    /// `PrepareForConnection` against the connection manager.
    Prepare,
    /// `SetAVTransportURI` against the transport service.
    SetUri,
    /// `Play` against the transport service.
    Play,
}

/// A failed cast: the stage that failed and the response body kept as
/// diagnostic detail.
#[derive(Debug, Clone)]
pub struct CastError {
    pub stage: CastStage,
    pub detail: String,
}

/// The state of one cast sequence.
#[derive(Debug, Clone)]
pub enum CastState {
    /// Nothing sent yet.
    Idle,
    /// `PrepareForConnection` was accepted.
    ConnectionPrepared,
    /// `SetAVTransportURI` was accepted.
    UriSet,
    /// `Play` was accepted: the sequence is complete.
    Playing,
    /// A request was refused; the sequence is over.
    Failed(CastError),
}

/// The state of a cast sequence with the diagnostic detail abstracted
/// away.
#[derive(Debug, Clone, Copy, PartialEq, Eq, Structural)]
pub enum CastPhase {
    Idle,
    ConnectionPrepared,
    UriSet,
    Playing,
    FailedAt(CastStage),
}

/// The phase a cast state is in.
pub open spec fn phase_of(s: CastState) -> CastPhase {
    match s {
        CastState::Idle => CastPhase::Idle,
        CastState::ConnectionPrepared => CastPhase::ConnectionPrepared,
        CastState::UriSet => CastPhase::UriSet,
        CastState::Playing => CastPhase::Playing,
        CastState::Failed(e) => CastPhase::FailedAt(e.stage),
    }
}

/// The stage of the next request, while the sequence is in progress.
pub open spec fn next_stage_of(p: CastPhase) -> Option<CastStage> {
    match p {
        CastPhase::Idle => Some(CastStage::Prepare),
        CastPhase::ConnectionPrepared => Some(CastStage::SetUri),
        CastPhase::UriSet => Some(CastStage::Play),
        CastPhase::Playing => None,
        CastPhase::FailedAt(_) => None,
    }
}

/// One step of the sequence: success advances it, failure ends it at the
/// stage that was under way, and a finished sequence stays as it is.
pub open spec fn phase_step(p: CastPhase, success: bool) -> CastPhase {
    match p {
        CastPhase::Idle => if success {
            CastPhase::ConnectionPrepared
        } else {
            CastPhase::FailedAt(CastStage::Prepare)
        },
        CastPhase::ConnectionPrepared => if success {
            CastPhase::UriSet
        } else {
            CastPhase::FailedAt(CastStage::SetUri)
        },
        CastPhase::UriSet => if success {
            CastPhase::Playing
        } else {
            CastPhase::FailedAt(CastStage::Play)
        },
        CastPhase::Playing => CastPhase::Playing,
        CastPhase::FailedAt(st) => CastPhase::FailedAt(st),
    }
}

/// The stage of the next control request, if the cast is still in
/// progress.
pub fn cast_next_stage(state: &CastState) -> (r: Option<CastStage>)
    ensures
        r == next_stage_of(phase_of(*state)),
{
    match state {
        CastState::Idle => Some(CastStage::Prepare),
        CastState::ConnectionPrepared => Some(CastStage::SetUri),
        CastState::UriSet => Some(CastStage::Play),
        CastState::Playing => None,
        CastState::Failed(_) => None,
    }
}

/// Applies the outcome of one control request: success advances the
/// sequence, failure ends it carrying the stage that failed and the
/// response body as detail, and a finished sequence stays as it is.
pub fn cast_apply(state: CastState, success: bool, detail: String) -> (r: CastState)
    ensures
        phase_of(r) == phase_step(phase_of(state), success),
        !(state is Failed) ==> (r matches CastState::Failed(e) ==> e.detail == detail),
        state matches CastState::Failed(e0) ==> (r matches CastState::Failed(e1) && e1 == e0),
{
    match state {
        CastState::Idle => {
            if success {
                CastState::ConnectionPrepared
            } else {
                CastState::Failed(CastError { stage: CastStage::Prepare, detail })
            }
        },
        CastState::ConnectionPrepared => {
            if success {
                CastState::UriSet
            } else {
                CastState::Failed(CastError { stage: CastStage::SetUri, detail })
            }
        },
        CastState::UriSet => {
            if success {
                CastState::Playing
            } else {
                CastState::Failed(CastError { stage: CastStage::Play, detail })
            }
        },
        CastState::Playing => CastState::Playing,
        CastState::Failed(e) => CastState::Failed(e),
    }
}

/// One control request of the cast sequence: where it goes, the action
/// header it carries, and its envelope.
pub struct CastRequest {
    pub url: String,
    pub action: String,
    pub body: String,
}

/// Builds the control request for `stage` of a cast of the named media
/// file: `device_url` is the device's control base URL, `media_url` the URL
/// the media endpoint serves the file under, and `title` the file's name.
pub fn cast_request(stage: CastStage, device_url: &str, media_url: &str, title: &str) -> (r:
    CastRequest)
    ensures
        stage is Prepare ==> r.url@ == connection_manager_url_spec(device_url@) && r.action@
            == prepare_action_spec() && r.body@ == prepare_envelope_spec(),
        stage is SetUri ==> r.url@ == av_transport_url_spec(device_url@) && r.action@
            == set_uri_action_spec() && r.body@ == set_uri_envelope_spec(
            media_url@,
            didl_metadata_spec(title@, media_url@),
        ),
        stage is Play ==> r.url@ == av_transport_url_spec(device_url@) && r.action@
            == play_action_spec() && r.body@ == play_envelope_spec(),
{
    match stage {
        CastStage::Prepare => CastRequest {
            url: connection_manager_url(device_url),
            action: String::from_str(prepare_action()),
            body: String::from_str(build_prepare_envelope()),
        },
        CastStage::SetUri => {
            let metadata = build_didl_metadata(title, media_url);
            CastRequest {
                url: av_transport_url(device_url),
                action: String::from_str(set_uri_action()),
                body: build_set_uri_envelope(media_url, metadata.as_str()),
            }
        },
        CastStage::Play => CastRequest {
            url: av_transport_url(device_url),
            action: String::from_str(play_action()),
            body: String::from_str(build_play_envelope()),
        },
    }
}

/// The final phase of a cast run from `p` after the listed outcomes.
pub open spec fn run_phases(p: CastPhase, outcomes: Seq<bool>) -> CastPhase
    decreases outcomes.len(),
{
    if outcomes.len() == 0 {
        p
    } else {
        run_phases(phase_step(p, outcomes[0]), outcomes.drop_first())
    }
}

/// The stages attempted during a cast run from `p`: one request per
/// outcome, for as long as the sequence is in progress.
pub open spec fn stages_attempted(p: CastPhase, outcomes: Seq<bool>) -> Seq<CastStage>
    decreases outcomes.len(),
{
    match next_stage_of(p) {
        None => Seq::empty(),
        Some(st) => {
            if outcomes.len() == 0 {
                Seq::empty()
            } else {
                seq![st] + stages_attempted(phase_step(p, outcomes[0]), outcomes.drop_first())
            }
        },
    }
}

proof fn lemma_run_terminal(p: CastPhase, outcomes: Seq<bool>)
    requires
        next_stage_of(p) is None,
    ensures
        run_phases(p, outcomes) == p,
    decreases outcomes.len(),
{
    if outcomes.len() > 0 {
        lemma_run_terminal(phase_step(p, outcomes[0]), outcomes.drop_first());
    }
}

/// Law: a cast run whose transport-URI step reports failure ends failed at
/// that stage, after attempting exactly the preparation and transport-URI
/// requests — the play command is never attempted.
pub proof fn lemma_set_uri_failure_stops_cast(outcomes: Seq<bool>)
    requires
        outcomes.len() >= 2,
        outcomes[0],
        !outcomes[1],
    ensures
        run_phases(CastPhase::Idle, outcomes) == CastPhase::FailedAt(CastStage::SetUri),
        stages_attempted(CastPhase::Idle, outcomes) == seq![CastStage::Prepare, CastStage::SetUri],
        !stages_attempted(CastPhase::Idle, outcomes).contains(CastStage::Play),
{
    let after_one = outcomes.drop_first();
    let after_two = after_one.drop_first();
    assert(after_one[0] == outcomes[1]);
    assert(run_phases(CastPhase::Idle, outcomes) == run_phases(
        CastPhase::ConnectionPrepared,
        after_one,
    ));
    assert(run_phases(CastPhase::ConnectionPrepared, after_one) == run_phases(
        CastPhase::FailedAt(CastStage::SetUri),
        after_two,
    ));
    lemma_run_terminal(CastPhase::FailedAt(CastStage::SetUri), after_two);
    let attempted = stages_attempted(CastPhase::Idle, outcomes);
    assert(attempted == seq![CastStage::Prepare] + stages_attempted(
        CastPhase::ConnectionPrepared,
        after_one,
    ));
    assert(stages_attempted(CastPhase::ConnectionPrepared, after_one) == seq![CastStage::SetUri]
        + stages_attempted(CastPhase::FailedAt(CastStage::SetUri), after_two));
    assert(stages_attempted(CastPhase::FailedAt(CastStage::SetUri), after_two)
        == Seq::<CastStage>::empty());
    assert(attempted =~= seq![CastStage::Prepare, CastStage::SetUri]);
    if attempted.contains(CastStage::Play) {
        let i = choose|i: int| 0 <= i < attempted.len() && attempted[i] == CastStage::Play;
        assert(i == 0 || i == 1);
    }
}

} // verus!
