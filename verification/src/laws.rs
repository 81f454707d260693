//! The observable guarantees of the decoder and state machine, stated and
//! proved once over the mathematical models.

use vstd::prelude::*;

use crate::raster::classify;
use crate::state::{
    credential_inserted_step, credential_written_step, initial_session, manual_input_step,
    retry_hint, scan_step, Scan, SessionView,
};

verus! {

/// A whole sequence of scan outcomes fed to a session, one per tick.
pub open spec fn run_scans(s: SessionView, outcomes: Seq<Scan>) -> SessionView
    decreases outcomes.len(),
{
    if outcomes.len() == 0 {
        s
    } else {
        run_scans(scan_step(s, outcomes[0]), outcomes.skip(1))
    }
}

/// A fresh session satisfies the session invariant.
pub proof fn lemma_initial_session_inv()
    ensures
        initial_session().inv(),
{
}

/// Every scan outcome preserves the session invariant.
pub proof fn lemma_scan_step_preserves_inv(s: SessionView, o: Scan)
    requires
        s.inv(),
    ensures
        scan_step(s, o).inv(),
{
}

/// Every external trigger preserves the session invariant.
pub proof fn lemma_triggers_preserve_inv(s: SessionView)
    requires
        s.inv(),
    ensures
        manual_input_step(s).inv(),
        credential_inserted_step(s).inv(),
        credential_written_step(s).inv(),
{
}

/// A sample in which no grid was detected changes nothing at all: neither
/// the stage, nor the payload, nor the error notice.
pub proof fn lemma_zero_grids_no_change(s: SessionView, grids: Seq<Option<Seq<char>>>)
    requires
        grids.len() == 0,
    ensures
        scan_step(s, classify(grids)) == s,
{
}

/// A sample with two or more detected grids is ambiguous and changes nothing
/// at all.
pub proof fn lemma_ambiguous_no_change(s: SessionView, grids: Seq<Option<Seq<char>>>)
    requires
        grids.len() >= 2,
    ensures
        scan_step(s, classify(grids)) == s,
{
}

/// A sample whose single grid would not decode sets the error notice to the
/// retry hint and changes nothing else.
pub proof fn lemma_undecodable_sets_hint(s: SessionView, grids: Seq<Option<Seq<char>>>)
    requires
        grids.len() == 1,
        grids[0] is None,
    ensures
        scan_step(s, classify(grids)) == (SessionView { error: Some(retry_hint()), ..s }),
{
}

/// A payload, once set, is never altered by any later sample.
pub proof fn lemma_payload_stays(s: SessionView, samples: Seq<Scan>)
    requires
        s.payload is Some,
    ensures
        run_scans(s, samples).payload == s.payload,
    decreases samples.len(),
{
    if samples.len() > 0 {
        lemma_payload_stays(scan_step(s, samples[0]), samples.skip(1));
    }
}

/// On a session without a payload, a sample whose single grid decodes sets
/// the payload to that grid's content, and no later sample — decodable or
/// not — alters it again.
pub proof fn lemma_payload_set_exactly_once(
    s: SessionView,
    grids: Seq<Option<Seq<char>>>,
    later: Seq<Scan>,
)
    requires
        s.payload is None,
        grids.len() == 1,
        grids[0] is Some,
    ensures
        scan_step(s, classify(grids)).payload == Some(grids[0]->0),
        run_scans(scan_step(s, classify(grids)), later).payload == Some(grids[0]->0),
{
    lemma_payload_stays(scan_step(s, classify(grids)), later);
}

/// Feeding any number of zero-grid samples leaves the session identical, so
/// the observable state after each feed is the same as before the first.
pub proof fn lemma_zero_grid_samples_idempotent(s: SessionView, n: nat)
    ensures
        run_scans(s, Seq::new(n, |i: int| Scan::NoGrids)) == s,
    decreases n,
{
    if n > 0 {
        let samples = Seq::new(n, |i: int| Scan::NoGrids);
        assert(samples.skip(1) =~= Seq::new((n - 1) as nat, |i: int| Scan::NoGrids));
        lemma_zero_grid_samples_idempotent(s, (n - 1) as nat);
    }
}

/// Once the payload is set, no sequence of further samples — including one
/// that would otherwise decode — brings the stage back to `Scanning`, and
/// the payload stays what it was.
pub proof fn lemma_no_return_to_scanning(s: SessionView, samples: Seq<Scan>)
    requires
        s.inv(),
        s.payload is Some,
    ensures
        run_scans(s, samples).state !is Scanning,
        run_scans(s, samples).payload == s.payload,
    decreases samples.len(),
{
    if samples.len() > 0 {
        lemma_scan_step_preserves_inv(s, samples[0]);
        lemma_no_return_to_scanning(scan_step(s, samples[0]), samples.skip(1));
    }
}

} // verus!
